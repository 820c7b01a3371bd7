//! Binding a plan to field values: the request path and its query pairs.
use vstd::prelude::*;
use crate::plan::{
    field_position, find_field, is_path_name, lemma_field_position, BindingPlan, PlanView,
};
use crate::schema::{
    descriptors_view, strings_view, values_match, values_view, check_values, DescriptorView,
    FieldValue, ValueView,
};
use crate::template::{
    lemma_segments_rebuild_template, segment_source, segments_view, template_segments, SegmentView,
    TemplateSegment,
};
use url::{ParseError, Url};

verus! {

/// `url::Url`, the parsed URL that binding produces; opaque here.
#[verifier::external_type_specification]
#[verifier::external_body]
pub struct ExUrl(Url);

/// `url::ParseError`, why a text is not a URL; carried in `BindError`.
#[verifier::external_type_specification]
#[verifier::external_body]
pub struct ExParseError(ParseError);

/// Whether the text parses as an absolute URL.
pub uninterp spec fn url_parses(input: Seq<char>) -> bool;

/// Relies on `url::Url::parse`: it succeeds or fails on the input text alone.
#[verifier::external_body]
fn parse_url(input: &str) -> (r: Result<Url, ParseError>)
    ensures
        r is Ok <==> url_parses(input@),
{
    Url::parse(input)
}

/// Relies on `url::Url::query_pairs_mut` and the serializer's `append_pair`:
/// appends `name=value`, both percent-encoded, to the query.
#[verifier::external_body]
fn append_query_pair(url: &mut Url, name: &str, value: &str) {
    url.query_pairs_mut().append_pair(name, value);
}

/// Relies on `url::Url::query`: the query component, if there is one.
#[verifier::external_body]
fn query_of(url: &Url) -> Option<String> {
    url.query().map(|q| q.to_string())
}

/// Relies on `url::Url::set_query` with `None`: removes the query component.
#[verifier::external_body]
fn remove_query(url: &mut Url) {
    url.set_query(None);
}

/// Why a plan could not be bound.
#[derive(Debug)]
pub enum BindError {
    /// The value record does not fit the plan's schema.
    SchemaMismatch,
    /// The base URL followed by the rendered path is not a valid URL.
    UrlParse(ParseError),
}

/// The items of a list joined by commas, in list order.
pub open spec fn join_commas(items: Seq<Seq<char>>) -> Seq<char>
    decreases items.len(),
{
    if items.len() == 0 {
        Seq::empty()
    } else if items.len() == 1 {
        items[0]
    } else {
        join_commas(items.drop_last()) + seq![','] + items.last()
    }
}

/// How a value reads in the path: a scalar as it is, a list joined by commas,
/// an absent optional as nothing.
pub open spec fn path_value(v: ValueView) -> Seq<char> {
    match v {
        ValueView::Scalar(s) => s,
        ValueView::OptionalScalar(Some(s)) => s,
        ValueView::OptionalScalar(None) => Seq::empty(),
        ValueView::List(l) => join_commas(l),
        ValueView::OptionalList(Some(l)) => join_commas(l),
        ValueView::OptionalList(None) => Seq::empty(),
    }
}

/// How a segment reads in the path: a literal as it is, a placeholder as the
/// value of the first field of its name.
pub open spec fn segment_text(
    s: SegmentView,
    fields: Seq<DescriptorView>,
    values: Seq<ValueView>,
) -> Seq<char> {
    match s {
        SegmentView::Literal(text) => text,
        SegmentView::FieldRef(name) => match field_position(fields, name) {
            Some(i) => path_value(values[i]),
            None => Seq::empty(),
        },
    }
}

/// The rendered path of a plan: its segments' texts, in order.
pub open spec fn path_text(plan: PlanView, values: Seq<ValueView>) -> Seq<char> {
    plan.segments.map_values(|s: SegmentView| segment_text(s, plan.fields, values)).flatten()
}

/// The query pairs of one field: one for a scalar, one per item for a list,
/// none for an absent optional or an empty list.
pub open spec fn field_pairs(name: Seq<char>, v: ValueView) -> Seq<(Seq<char>, Seq<char>)> {
    match v {
        ValueView::Scalar(s) => seq![(name, s)],
        ValueView::OptionalScalar(Some(s)) => seq![(name, s)],
        ValueView::OptionalScalar(None) => Seq::empty(),
        ValueView::List(l) => l.map_values(|x: Seq<char>| (name, x)),
        ValueView::OptionalList(Some(l)) => l.map_values(|x: Seq<char>| (name, x)),
        ValueView::OptionalList(None) => Seq::empty(),
    }
}

/// The pairs contributed by the field at position `i`: none for a path field.
pub open spec fn pairs_at(plan: PlanView, values: Seq<ValueView>, i: int) -> Seq<
    (Seq<char>, Seq<char>),
> {
    if is_path_name(plan.segments, plan.fields[i].name) {
        Seq::empty()
    } else {
        field_pairs(plan.fields[i].name, values[i])
    }
}

/// The query pairs of a binding: those of each query field, in declaration
/// order.
pub open spec fn query_pairs_of(plan: PlanView, values: Seq<ValueView>) -> Seq<
    (Seq<char>, Seq<char>),
> {
    Seq::new(plan.fields.len(), |i: int| pairs_at(plan, values, i)).flatten()
}

pub open spec fn pairs_view(p: Seq<(String, String)>) -> Seq<(Seq<char>, Seq<char>)> {
    p.map_values(|x: (String, String)| (x.0@, x.1@))
}

/// The rendered path keeps the template's literal text and replaces each
/// placeholder, and nothing else: the template is its segments written back
/// with placeholders in braces, the path is the same segments with each
/// placeholder rendered, and on every literal segment the two agree.
pub proof fn lemma_path_replaces_placeholders(
    template: Seq<char>,
    plan: PlanView,
    values: Seq<ValueView>,
)
    requires
        template_segments(template) == Some(plan.segments),
    ensures
        template == plan.segments.map_values(|s: SegmentView| segment_source(s)).flatten(),
        path_text(plan, values) == plan.segments.map_values(
            |s: SegmentView| segment_text(s, plan.fields, values),
        ).flatten(),
        forall|k: int|
            0 <= k < plan.segments.len() && (#[trigger] plan.segments[k] is Literal) ==> segment_text(
                plan.segments[k],
                plan.fields,
                values,
            ) == segment_source(plan.segments[k]),
{
    lemma_segments_rebuild_template(template);
}

/// Binding is a function of its inputs: equal plans, values and base URLs
/// give the same text to parse and the same query pairs, in the same order.
pub proof fn lemma_binding_deterministic(
    plan1: PlanView,
    plan2: PlanView,
    values1: Seq<ValueView>,
    values2: Seq<ValueView>,
    base1: Seq<char>,
    base2: Seq<char>,
)
    requires
        plan1 == plan2,
        values1 == values2,
        base1 == base2,
    ensures
        base1 + path_text(plan1, values1) == base2 + path_text(plan2, values2),
        url_parses(base1 + path_text(plan1, values1)) == url_parses(
            base2 + path_text(plan2, values2),
        ),
        query_pairs_of(plan1, values1) == query_pairs_of(plan2, values2),
{
}

proof fn lemma_no_pairs_before(plan: PlanView, values: Seq<ValueView>, n: int)
    requires
        0 <= n <= plan.fields.len(),
        forall|i: int|
            0 <= i < plan.fields.len() ==> is_path_name(plan.segments, #[trigger] plan.fields[i].name),
    ensures
        Seq::new(n as nat, |i: int| pairs_at(plan, values, i)).flatten() == Seq::<
            (Seq<char>, Seq<char>),
        >::empty(),
    decreases n,
{
    let g = |i: int| pairs_at(plan, values, i);
    if n == 0 {
        assert(Seq::new(0, g) =~= Seq::<Seq<(Seq<char>, Seq<char>)>>::empty());
    } else {
        lemma_no_pairs_before(plan, values, n - 1);
        assert(Seq::new(n as nat, g) =~= Seq::new((n - 1) as nat, g).push(g(n - 1)));
        Seq::new((n - 1) as nat, g).lemma_flatten_push(g(n - 1));
        assert(g(n - 1) == Seq::<(Seq<char>, Seq<char>)>::empty());
        assert(Seq::new(n as nat, g).flatten() =~= Seq::<(Seq<char>, Seq<char>)>::empty());
    }
}

/// When every declared field fills a placeholder, a binding has no query
/// pairs.
pub proof fn lemma_no_query_without_query_fields(plan: PlanView, values: Seq<ValueView>)
    requires
        forall|i: int|
            0 <= i < plan.fields.len() ==> is_path_name(plan.segments, #[trigger] plan.fields[i].name),
    ensures
        query_pairs_of(plan, values) == Seq::<(Seq<char>, Seq<char>)>::empty(),
{
    lemma_no_pairs_before(plan, values, plan.fields.len() as int);
}

/// Joins `items` with commas.
pub fn join_with_commas(items: &Vec<String>) -> (r: String)
    ensures
        r@ == join_commas(strings_view(items@)),
{
    let ghost all = strings_view(items@);
    let mut out = String::new();
    let mut i: usize = 0;
    while i < items.len()
        invariant
            0 <= i <= items@.len(),
            all == strings_view(items@),
            out@ == join_commas(all.take(i as int)),
        decreases items.len() - i,
    {
        let ghost before = out@;
        proof {
            reveal_strlit(",");
        }
        if i > 0 {
            out.append(",");
        }
        out.append(items[i].as_str());
        proof {
            let next = all.take(i + 1);
            assert(next.drop_last() =~= all.take(i as int));
            assert(next.last() == items@[i as int]@);
            if i == 0 {
                assert(before =~= Seq::<char>::empty());
                assert(out@ =~= next[0]);
            } else {
                assert(out@ =~= before + seq![','] + items@[i as int]@);
            }
        }
        i = i + 1;
    }
    assert(all.take(items@.len() as int) =~= all);
    out
}

/// Renders one value as it reads in the path.
pub fn path_value_of(v: &FieldValue) -> (r: String)
    ensures
        r@ == path_value(v@),
{
    match v {
        FieldValue::Scalar(s) => s.clone(),
        FieldValue::OptionalScalar(Some(s)) => s.clone(),
        FieldValue::OptionalScalar(None) => String::new(),
        FieldValue::List(l) => join_with_commas(l),
        FieldValue::OptionalList(Some(l)) => join_with_commas(l),
        FieldValue::OptionalList(None) => String::new(),
    }
}

/// Renders the path of `plan` with `values`. Fails with `SchemaMismatch`
/// exactly when the values do not fit the plan's fields.
pub fn render_path(plan: &BindingPlan, values: &Vec<FieldValue>) -> (r: Result<String, BindError>)
    ensures
        values_match(plan@.fields, values_view(values@)) ==> r is Ok && r->Ok_0@ == path_text(
            plan@,
            values_view(values@),
        ),
        !values_match(plan@.fields, values_view(values@)) ==> r matches Err(
            BindError::SchemaMismatch,
        ),
{
    let fields = plan.fields();
    if !check_values(fields, values) {
        return Err(BindError::SchemaMismatch);
    }
    let segs = plan.segments();
    let ghost vv = values_view(values@);
    let ghost f = |s: SegmentView| segment_text(s, plan@.fields, vv);
    let ghost sv = plan@.segments;
    let mut out = String::new();
    let mut k: usize = 0;
    while k < segs.len()
        invariant
            0 <= k <= segs@.len(),
            sv == segments_view(segs@),
            descriptors_view(fields@) == plan@.fields,
            crate::plan::all_declared(sv, plan@.fields),
            values_match(plan@.fields, vv),
            vv == values_view(values@),
            f == (|s: SegmentView| segment_text(s, plan@.fields, vv)),
            out@ == sv.take(k as int).map_values(f).flatten(),
        decreases segs.len() - k,
    {
        let ghost before = out@;
        match &segs[k] {
            TemplateSegment::Literal(text) => {
                out.append(text.as_str());
            },
            TemplateSegment::FieldRef(name) => {
                proof {
                    assert(sv[k as int] is FieldRef);
                    lemma_field_position(plan@.fields, name@);
                }
                match find_field(fields, name) {
                    Some(i) => {
                        let rendered = path_value_of(&values[i]);
                        out.append(rendered.as_str());
                    },
                    None => {},
                }
            },
        }
        proof {
            assert(sv.take(k + 1).map_values(f) =~= sv.take(k as int).map_values(f).push(
                f(sv[k as int]),
            ));
            sv.take(k as int).map_values(f).lemma_flatten_push(f(sv[k as int]));
            assert(out@ =~= before + f(sv[k as int]));
        }
        k = k + 1;
    }
    assert(sv.take(sv.len() as int) =~= sv);
    Ok(out)
}

/// Appends the query pairs of one field to `out`.
fn push_field_pairs(out: &mut Vec<(String, String)>, name: &String, v: &FieldValue)
    ensures
        pairs_view(final(out)@) == pairs_view(old(out)@) + field_pairs(name@, v@),
{
    let ghost start = pairs_view(out@);
    match v {
        FieldValue::Scalar(s) => {
            out.push((name.clone(), s.clone()));
            assert(pairs_view(out@) =~= start + field_pairs(name@, v@));
        },
        FieldValue::OptionalScalar(Some(s)) => {
            out.push((name.clone(), s.clone()));
            assert(pairs_view(out@) =~= start + field_pairs(name@, v@));
        },
        FieldValue::OptionalScalar(None) => {
            assert(pairs_view(out@) =~= start + field_pairs(name@, v@));
        },
        FieldValue::List(l) => {
            push_list_pairs(out, name, l);
        },
        FieldValue::OptionalList(Some(l)) => {
            push_list_pairs(out, name, l);
        },
        FieldValue::OptionalList(None) => {
            assert(pairs_view(out@) =~= start + field_pairs(name@, v@));
        },
    }
}

/// Appends one pair per item of `items`, in order, all under `name`.
fn push_list_pairs(out: &mut Vec<(String, String)>, name: &String, items: &Vec<String>)
    ensures
        pairs_view(final(out)@) == pairs_view(old(out)@) + strings_view(items@).map_values(
            |x: Seq<char>| (name@, x),
        ),
{
    let ghost start = pairs_view(out@);
    let ghost g = |x: Seq<char>| (name@, x);
    let mut i: usize = 0;
    while i < items.len()
        invariant
            0 <= i <= items@.len(),
            g == (|x: Seq<char>| (name@, x)),
            pairs_view(out@) == start + strings_view(items@).take(i as int).map_values(g),
        decreases items.len() - i,
    {
        let ghost prev = out@;
        out.push((name.clone(), items[i].clone()));
        assert(pairs_view(out@) =~= pairs_view(prev).push((name@, items@[i as int]@)));
        assert(strings_view(items@).take(i + 1).map_values(g) =~= strings_view(items@).take(
            i as int,
        ).map_values(g).push((name@, items@[i as int]@)));
        assert(pairs_view(out@) =~= start + strings_view(items@).take(i + 1).map_values(g));
        i = i + 1;
    }
    assert(strings_view(items@).take(items@.len() as int) =~= strings_view(items@));
}

/// The query pairs of a binding, in declaration order. Fails with
/// `SchemaMismatch` exactly when the values do not fit the plan's fields.
pub fn query_pairs(plan: &BindingPlan, values: &Vec<FieldValue>) -> (r: Result<
    Vec<(String, String)>,
    BindError,
>)
    ensures
        values_match(plan@.fields, values_view(values@)) ==> r is Ok && pairs_view(r->Ok_0@)
            == query_pairs_of(plan@, values_view(values@)),
        !values_match(plan@.fields, values_view(values@)) ==> r matches Err(
            BindError::SchemaMismatch,
        ),
{
    let fields = plan.fields();
    if !check_values(fields, values) {
        return Err(BindError::SchemaMismatch);
    }
    let ghost vv = values_view(values@);
    let ghost g = |i: int| pairs_at(plan@, vv, i);
    let mut out: Vec<(String, String)> = Vec::new();
    let mut i: usize = 0;
    while i < fields.len()
        invariant
            0 <= i <= fields@.len(),
            descriptors_view(fields@) == plan@.fields,
            values_match(plan@.fields, vv),
            vv == values_view(values@),
            g == (|i: int| pairs_at(plan@, vv, i)),
            pairs_view(out@) == Seq::new(i as nat, g).flatten(),
        decreases fields.len() - i,
    {
        let ghost before = pairs_view(out@);
        if !plan.is_path_field(i) {
            push_field_pairs(&mut out, &fields[i].name, &values[i]);
        }
        proof {
            assert(Seq::new((i + 1) as nat, g) =~= Seq::new(i as nat, g).push(g(i as int)));
            Seq::new(i as nat, g).lemma_flatten_push(g(i as int));
            assert(pairs_view(out@) =~= before + g(i as int));
        }
        i = i + 1;
    }
    Ok(out)
}

/// Whether a query component is to be removed once all pairs are appended:
/// exactly when it is present and empty.
pub fn drops_query(query: &Option<String>) -> (r: bool)
    ensures
        r == (query is Some && query->Some_0@.len() == 0),
{
    match query {
        Some(q) => q.as_str().unicode_len() == 0,
        None => false,
    }
}

/// Binds `plan` to `values` under `base_url`: the base URL followed by the
/// rendered path is parsed, then each query pair is appended in order, and an
/// empty query component is removed.
///
/// Fails with `SchemaMismatch` when the values do not fit the plan's fields,
/// and otherwise with `UrlParse` exactly when that text is not a valid URL.
pub fn bind(plan: &BindingPlan, values: &Vec<FieldValue>, base_url: &str) -> (r: Result<
    Url,
    BindError,
>)
    ensures
        !values_match(plan@.fields, values_view(values@)) ==> r matches Err(
            BindError::SchemaMismatch,
        ),
        values_match(plan@.fields, values_view(values@)) ==> (r is Ok <==> url_parses(
            base_url@ + path_text(plan@, values_view(values@)),
        )),
        values_match(plan@.fields, values_view(values@)) ==> (r is Err ==> r matches Err(
            BindError::UrlParse(_),
        )),
{
    let path = match render_path(plan, values) {
        Ok(p) => p,
        Err(e) => {
            return Err(e);
        },
    };
    let pairs = match query_pairs(plan, values) {
        Ok(p) => p,
        Err(e) => {
            return Err(e);
        },
    };
    let mut text = String::from_str(base_url);
    text.append(path.as_str());
    let mut url = match parse_url(text.as_str()) {
        Ok(u) => u,
        Err(e) => {
            return Err(BindError::UrlParse(e));
        },
    };
    let mut i: usize = 0;
    while i < pairs.len()
        invariant
            0 <= i <= pairs@.len(),
        decreases pairs.len() - i,
    {
        append_query_pair(&mut url, pairs[i].0.as_str(), pairs[i].1.as_str());
        i = i + 1;
    }
    if drops_query(&query_of(&url)) {
        remove_query(&mut url);
    }
    Ok(url)
}

} // verus!
