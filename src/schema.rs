//! Field descriptors and the values that a request supplies for them.
use vstd::prelude::*;

verus! {

/// The shape of a request field, which decides how its value is rendered.
#[derive(Clone, Copy, Debug, PartialEq, Eq, Structural)]
pub enum ParameterKind {
    Scalar,
    OptionalScalar,
    List,
    OptionalList,
}

/// A declared field: its name and its shape.
#[derive(Debug)]
pub struct ParameterDescriptor {
    pub name: String,
    pub kind: ParameterKind,
}

pub struct DescriptorView {
    pub name: Seq<char>,
    pub kind: ParameterKind,
}

impl View for ParameterDescriptor {
    type V = DescriptorView;

    open spec fn view(&self) -> DescriptorView {
        DescriptorView { name: self.name@, kind: self.kind }
    }
}

impl ParameterDescriptor {
    pub fn new(name: &str, kind: ParameterKind) -> (r: ParameterDescriptor)
        ensures
            r@ == (DescriptorView { name: name@, kind }),
    {
        ParameterDescriptor { name: String::from_str(name), kind }
    }

    pub fn duplicate(&self) -> (r: ParameterDescriptor)
        ensures
            r@ == self@,
    {
        ParameterDescriptor { name: self.name.clone(), kind: self.kind }
    }
}

/// The rendered value of one field, in the shape of its kind.
#[derive(Debug)]
pub enum FieldValue {
    Scalar(String),
    OptionalScalar(Option<String>),
    List(Vec<String>),
    OptionalList(Option<Vec<String>>),
}

pub enum ValueView {
    Scalar(Seq<char>),
    OptionalScalar(Option<Seq<char>>),
    List(Seq<Seq<char>>),
    OptionalList(Option<Seq<Seq<char>>>),
}

pub open spec fn strings_view(v: Seq<String>) -> Seq<Seq<char>> {
    v.map_values(|s: String| s@)
}

impl View for FieldValue {
    type V = ValueView;

    open spec fn view(&self) -> ValueView {
        match self {
            FieldValue::Scalar(s) => ValueView::Scalar(s@),
            FieldValue::OptionalScalar(o) => ValueView::OptionalScalar(
                match o {
                    Some(s) => Some(s@),
                    None => None,
                },
            ),
            FieldValue::List(l) => ValueView::List(strings_view(l@)),
            FieldValue::OptionalList(o) => ValueView::OptionalList(
                match o {
                    Some(l) => Some(strings_view(l@)),
                    None => None,
                },
            ),
        }
    }
}

pub open spec fn descriptors_view(d: Seq<ParameterDescriptor>) -> Seq<DescriptorView> {
    d.map_values(|x: ParameterDescriptor| x@)
}

pub open spec fn values_view(v: Seq<FieldValue>) -> Seq<ValueView> {
    v.map_values(|x: FieldValue| x@)
}

pub open spec fn kind_of(v: ValueView) -> ParameterKind {
    match v {
        ValueView::Scalar(_) => ParameterKind::Scalar,
        ValueView::OptionalScalar(_) => ParameterKind::OptionalScalar,
        ValueView::List(_) => ParameterKind::List,
        ValueView::OptionalList(_) => ParameterKind::OptionalList,
    }
}

/// A value record fits a schema when it holds one value per descriptor, in
/// declaration order, each of the declared kind.
pub open spec fn values_match(fields: Seq<DescriptorView>, values: Seq<ValueView>) -> bool {
    &&& values.len() == fields.len()
    &&& forall|i: int| 0 <= i < fields.len() ==> #[trigger] kind_of(values[i]) == fields[i].kind
}

impl FieldValue {
    pub fn kind(&self) -> (r: ParameterKind)
        ensures
            r == kind_of(self@),
    {
        match self {
            FieldValue::Scalar(_) => ParameterKind::Scalar,
            FieldValue::OptionalScalar(_) => ParameterKind::OptionalScalar,
            FieldValue::List(_) => ParameterKind::List,
            FieldValue::OptionalList(_) => ParameterKind::OptionalList,
        }
    }
}

/// Tells whether `values` fits the schema `fields`.
pub fn check_values(fields: &Vec<ParameterDescriptor>, values: &Vec<FieldValue>) -> (r: bool)
    ensures
        r == values_match(descriptors_view(fields@), values_view(values@)),
{
    if values.len() != fields.len() {
        return false;
    }
    let mut i: usize = 0;
    while i < fields.len()
        invariant
            values@.len() == fields@.len(),
            i <= fields@.len(),
            forall|j: int|
                0 <= j < i ==> #[trigger] kind_of(values@[j]@) == fields@[j].kind,
        decreases fields.len() - i,
    {
        if values[i].kind() != fields[i].kind {
            assert(kind_of(values_view(values@)[i as int]) != descriptors_view(fields@)[i as int].kind);
            return false;
        }
        i = i + 1;
    }
    assert forall|j: int| 0 <= j < fields@.len() implies #[trigger] kind_of(
        values_view(values@)[j],
    ) == descriptors_view(fields@)[j].kind by {
        assert(kind_of(values@[j]@) == fields@[j].kind);
    }
    true
}

} // verus!
