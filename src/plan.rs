//! Template analysis: the reusable plan that pairs a template with a schema.
use vstd::prelude::*;
use crate::schema::{descriptors_view, DescriptorView, ParameterDescriptor};
use crate::template::{
    segments_view, split_template, template_segments, SegmentView, TemplateError, TemplateSegment,
};

verus! {

/// The position of the first field named `name` at or after `i`.
pub open spec fn position_from(fields: Seq<DescriptorView>, name: Seq<char>, i: int) -> Option<
    int,
>
    decreases fields.len() - i,
{
    if i < 0 || i >= fields.len() {
        None
    } else if fields[i].name == name {
        Some(i)
    } else {
        position_from(fields, name, i + 1)
    }
}

/// The position of the first field named `name`.
pub open spec fn field_position(fields: Seq<DescriptorView>, name: Seq<char>) -> Option<int> {
    position_from(fields, name, 0)
}

pub open spec fn is_declared(fields: Seq<DescriptorView>, name: Seq<char>) -> bool {
    exists|i: int| 0 <= i < fields.len() && #[trigger] fields[i].name == name
}

/// Whether some placeholder of `segs` names `name`.
pub open spec fn is_path_name(segs: Seq<SegmentView>, name: Seq<char>) -> bool {
    exists|k: int| 0 <= k < segs.len() && #[trigger] segs[k] == SegmentView::FieldRef(name)
}

/// Every placeholder of `segs` names a declared field.
pub open spec fn all_declared(segs: Seq<SegmentView>, fields: Seq<DescriptorView>) -> bool {
    forall|k: int|
        0 <= k < segs.len() && (#[trigger] segs[k] is FieldRef) ==> is_declared(
            fields,
            segs[k]->FieldRef_0,
        )
}

/// `name` is the first placeholder of `segs` that `fields` does not declare.
pub open spec fn first_undeclared(
    segs: Seq<SegmentView>,
    fields: Seq<DescriptorView>,
    name: Seq<char>,
) -> bool {
    exists|k: int|
        0 <= k < segs.len() && #[trigger] segs[k] == SegmentView::FieldRef(name) && !is_declared(
            fields,
            name,
        ) && all_declared(segs.subrange(0, k), fields)
}

proof fn lemma_position_from(fields: Seq<DescriptorView>, name: Seq<char>, i: int)
    requires
        0 <= i <= fields.len(),
    ensures
        match position_from(fields, name, i) {
            Some(j) => i <= j < fields.len() && fields[j].name == name && forall|m: int|
                i <= m < j ==> fields[m].name != name,
            None => forall|m: int| i <= m < fields.len() ==> fields[m].name != name,
        },
    decreases fields.len() - i,
{
    if i < fields.len() && fields[i].name != name {
        lemma_position_from(fields, name, i + 1);
    }
}

/// The first field of that name is found exactly when the name is declared,
/// and it bears that name.
pub proof fn lemma_field_position(fields: Seq<DescriptorView>, name: Seq<char>)
    ensures
        field_position(fields, name) is Some <==> is_declared(fields, name),
        field_position(fields, name) is Some ==> {
            let j = field_position(fields, name)->Some_0;
            0 <= j < fields.len() && fields[j].name == name
        },
{
    lemma_position_from(fields, name, 0);
    if is_declared(fields, name) {
        let i = choose|i: int| 0 <= i < fields.len() && #[trigger] fields[i].name == name;
        assert(fields[i].name == name);
    }
}

/// Finds the first field named `name`.
pub fn find_field(fields: &Vec<ParameterDescriptor>, name: &String) -> (r: Option<usize>)
    ensures
        r matches Some(i) ==> field_position(descriptors_view(fields@), name@) == Some(i as int),
        r is None ==> field_position(descriptors_view(fields@), name@) is None,
{
    let ghost f = descriptors_view(fields@);
    let mut i: usize = 0;
    while i < fields.len()
        invariant
            0 <= i <= fields@.len(),
            f == descriptors_view(fields@),
            position_from(f, name@, i as int) == field_position(f, name@),
        decreases fields.len() - i,
    {
        if fields[i].name == *name {
            return Some(i);
        }
        i = i + 1;
    }
    None
}

/// Tells whether some placeholder of `segs` names `name`.
fn references(segs: &Vec<TemplateSegment>, name: &String) -> (r: bool)
    ensures
        r == is_path_name(segments_view(segs@), name@),
{
    let ghost s = segments_view(segs@);
    let mut k: usize = 0;
    while k < segs.len()
        invariant
            0 <= k <= segs@.len(),
            s == segments_view(segs@),
            forall|j: int| 0 <= j < k ==> s[j] != SegmentView::FieldRef(name@),
        decreases segs.len() - k,
    {
        match &segs[k] {
            TemplateSegment::FieldRef(n) => {
                if *n == *name {
                    assert(s[k as int] == SegmentView::FieldRef(name@));
                    return true;
                }
            },
            TemplateSegment::Literal(_) => {},
        }
        k = k + 1;
    }
    false
}

/// What a plan stands for: the template's segments and the declared fields,
/// in declaration order.
pub struct PlanView {
    pub segments: Seq<SegmentView>,
    pub fields: Seq<DescriptorView>,
}

/// The fields that fill no placeholder, in declaration order.
pub open spec fn query_fields_of(plan: PlanView) -> Seq<DescriptorView> {
    plan.fields.filter(|d: DescriptorView| !is_path_name(plan.segments, d.name))
}

/// The result of analysing a template against a schema. It is immutable and
/// may be reused for any number of bindings.
pub struct BindingPlan {
    segments: Vec<TemplateSegment>,
    fields: Vec<ParameterDescriptor>,
    in_path: Vec<bool>,
}

impl View for BindingPlan {
    type V = PlanView;

    closed spec fn view(&self) -> PlanView {
        PlanView { segments: segments_view(self.segments@), fields: descriptors_view(self.fields@) }
    }
}

impl BindingPlan {
    #[verifier::type_invariant]
    spec fn well_formed(self) -> bool {
        &&& all_declared(segments_view(self.segments@), descriptors_view(self.fields@))
        &&& self.in_path@.len() == self.fields@.len()
        &&& forall|i: int|
            0 <= i < self.fields@.len() ==> #[trigger] self.in_path@[i] == is_path_name(
                segments_view(self.segments@),
                self.fields@[i].name@,
            )
    }

    /// The template's segments, in order. Each placeholder among them names a
    /// declared field.
    pub fn segments(&self) -> (r: &Vec<TemplateSegment>)
        ensures
            segments_view(r@) == self@.segments,
            all_declared(self@.segments, self@.fields),
    {
        proof {
            use_type_invariant(self);
        }
        &self.segments
    }

    /// All declared fields, in declaration order.
    pub fn fields(&self) -> (r: &Vec<ParameterDescriptor>)
        ensures
            descriptors_view(r@) == self@.fields,
    {
        &self.fields
    }

    /// The fields that fill no placeholder, in declaration order.
    pub fn query_fields(&self) -> (r: Vec<ParameterDescriptor>)
        ensures
            descriptors_view(r@) == query_fields_of(self@),
    {
        proof {
            use_type_invariant(self);
        }
        let ghost f = descriptors_view(self.fields@);
        let ghost pred = |d: DescriptorView| !is_path_name(segments_view(self.segments@), d.name);
        let mut out: Vec<ParameterDescriptor> = Vec::new();
        let mut i: usize = 0;
        while i < self.fields.len()
            invariant
                0 <= i <= self.fields@.len(),
                self.in_path@.len() == self.fields@.len(),
                forall|j: int|
                    0 <= j < self.fields@.len() ==> #[trigger] self.in_path@[j] == is_path_name(
                        segments_view(self.segments@),
                        self.fields@[j].name@,
                    ),
                f == descriptors_view(self.fields@),
                pred == (|d: DescriptorView| !is_path_name(segments_view(self.segments@), d.name)),
                descriptors_view(out@) == f.take(i as int).filter(pred),
            decreases self.fields.len() - i,
        {
            let ghost before = out@;
            if !self.in_path[i] {
                out.push(self.fields[i].duplicate());
            }
            proof {
                let next = f.take(i + 1);
                assert(next.drop_last() =~= f.take(i as int));
                assert(next.last() == f[i as int]);
                reveal(Seq::filter);
                assert(descriptors_view(out@) =~= next.filter(pred));
            }
            i = i + 1;
        }
        assert(f.take(f.len() as int) =~= f);
        out
    }

    /// Whether the field at position `i` fills a placeholder of the path.
    pub fn is_path_field(&self, i: usize) -> (r: bool)
        requires
            i < self@.fields.len(),
        ensures
            r == is_path_name(self@.segments, self@.fields[i as int].name),
    {
        proof {
            use_type_invariant(self);
        }
        self.in_path[i]
    }
}

/// Analyses `template` against the declared `descriptors`.
///
/// Fails with `UnterminatedPlaceholder` when a `{` is left open, and
/// otherwise with `UndeclaredField` naming the first placeholder that no
/// descriptor declares.
pub fn analyze(template: &str, descriptors: Vec<ParameterDescriptor>) -> (r: Result<
    BindingPlan,
    TemplateError,
>)
    ensures
        match template_segments(template@) {
            None => r matches Err(TemplateError::UnterminatedPlaceholder),
            Some(segs) => if all_declared(segs, descriptors_view(descriptors@)) {
                r matches Ok(plan) && plan@ == (PlanView {
                    segments: segs,
                    fields: descriptors_view(descriptors@),
                })
            } else {
                r matches Err(TemplateError::UndeclaredField(name)) && first_undeclared(
                    segs,
                    descriptors_view(descriptors@),
                    name@,
                )
            },
        },
{
    let segs = match split_template(template) {
        Ok(s) => s,
        Err(e) => {
            return Err(e);
        },
    };
    let ghost sv = segments_view(segs@);
    let ghost f = descriptors_view(descriptors@);
    let mut k: usize = 0;
    while k < segs.len()
        invariant
            0 <= k <= segs@.len(),
            sv == segments_view(segs@),
            template_segments(template@) == Some(sv),
            f == descriptors_view(descriptors@),
            all_declared(sv.subrange(0, k as int), f),
        decreases segs.len() - k,
    {
        match &segs[k] {
            TemplateSegment::FieldRef(name) => {
                proof {
                    lemma_field_position(f, name@);
                }
                if find_field(&descriptors, name).is_none() {
                    let missing = name.clone();
                    assert(sv[k as int] == SegmentView::FieldRef(missing@));
                    assert(sv[k as int] is FieldRef);
                    assert(!all_declared(sv, f));
                    assert(first_undeclared(sv, f, missing@));
                    return Err(TemplateError::UndeclaredField(missing));
                }
            },
            TemplateSegment::Literal(_) => {},
        }
        assert forall|j: int|
            0 <= j < k + 1 && (#[trigger] sv.subrange(0, k + 1)[j] is FieldRef) implies is_declared(
            f,
            sv.subrange(0, k + 1)[j]->FieldRef_0,
        ) by {
            if j < k {
                assert(sv.subrange(0, k as int)[j] == sv.subrange(0, k + 1)[j]);
            }
        }
        k = k + 1;
    }
    assert(sv.subrange(0, sv.len() as int) =~= sv);
    let mut in_path: Vec<bool> = Vec::new();
    let mut i: usize = 0;
    while i < descriptors.len()
        invariant
            0 <= i <= descriptors@.len(),
            sv == segments_view(segs@),
            template_segments(template@) == Some(sv),
            all_declared(sv, descriptors_view(descriptors@)),
            in_path@.len() == i,
            forall|j: int|
                0 <= j < i ==> #[trigger] in_path@[j] == is_path_name(sv, descriptors@[j].name@),
        decreases descriptors.len() - i,
    {
        let flag = references(&segs, &descriptors[i].name);
        in_path.push(flag);
        i = i + 1;
    }
    Ok(BindingPlan { segments: segs, fields: descriptors, in_path })
}

} // verus!
