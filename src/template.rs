//! Splitting a path template into literal runs and placeholder references.
use vstd::prelude::*;
use vstd::seq_lib::lemma_flatten_concat;

verus! {

/// One piece of a path template: text kept as it is, or a `{name}` reference.
#[derive(Debug)]
pub enum TemplateSegment {
    Literal(String),
    FieldRef(String),
}

pub enum SegmentView {
    Literal(Seq<char>),
    FieldRef(Seq<char>),
}

impl View for TemplateSegment {
    type V = SegmentView;

    open spec fn view(&self) -> SegmentView {
        match self {
            TemplateSegment::Literal(s) => SegmentView::Literal(s@),
            TemplateSegment::FieldRef(s) => SegmentView::FieldRef(s@),
        }
    }
}

pub open spec fn segments_view(s: Seq<TemplateSegment>) -> Seq<SegmentView> {
    s.map_values(|x: TemplateSegment| x@)
}

/// Why a template cannot be analysed.
#[derive(Debug, PartialEq, Eq)]
pub enum TemplateError {
    /// A `{` has no `}` before the next `{` or the end of the template.
    UnterminatedPlaceholder,
    /// A placeholder names a field that the schema does not declare.
    UndeclaredField(String),
}

/// The first position at or after `from` that holds `{`, or the length of `t`
/// when there is none.
pub open spec fn next_open(t: Seq<char>, from: int) -> int
    decreases t.len() - from,
{
    if from >= t.len() {
        t.len() as int
    } else if t[from] == '{' {
        from
    } else {
        next_open(t, from + 1)
    }
}

/// The first position at or after `from` that holds `{` or `}`, or the length
/// of `t` when there is none.
pub open spec fn next_brace(t: Seq<char>, from: int) -> int
    decreases t.len() - from,
{
    if from >= t.len() {
        t.len() as int
    } else if t[from] == '{' || t[from] == '}' {
        from
    } else {
        next_brace(t, from + 1)
    }
}

pub proof fn lemma_next_open_bounds(t: Seq<char>, from: int)
    requires
        from <= t.len(),
    ensures
        from <= next_open(t, from) <= t.len(),
    decreases t.len() - from,
{
    if from < t.len() && t[from] != '{' {
        lemma_next_open_bounds(t, from + 1);
    }
}

pub proof fn lemma_next_brace_bounds(t: Seq<char>, from: int)
    requires
        from <= t.len(),
    ensures
        from <= next_brace(t, from) <= t.len(),
    decreases t.len() - from,
{
    if from < t.len() && t[from] != '{' && t[from] != '}' {
        lemma_next_brace_bounds(t, from + 1);
    }
}

/// The segments of `t` from position `p`, which directly follows a `{`: the
/// placeholder name up to the next `}`, the literal after it up to the next
/// `{`, and so on to the end. `None` when a `{` is left open.
pub open spec fn placeholders_from(t: Seq<char>, p: int) -> Option<Seq<SegmentView>>
    decreases t.len() - p,
{
    let close = next_brace(t, p);
    if p > t.len() || close >= t.len() || t[close] == '{' {
        None
    } else {
        let open = next_open(t, close + 1);
        let here = seq![
            SegmentView::FieldRef(t.subrange(p, close)),
            SegmentView::Literal(t.subrange(close + 1, open)),
        ];
        if open >= t.len() {
            Some(here)
        } else {
            proof {
                lemma_next_brace_bounds(t, p);
                lemma_next_open_bounds(t, close + 1);
            }
            match placeholders_from(t, open + 1) {
                Some(rest) => Some(here + rest),
                None => None,
            }
        }
    }
}

/// The segments of a template: the literal before the first `{`, then for
/// each placeholder its name and the literal that follows it. `None` when a
/// `{` has no matching `}`.
pub open spec fn template_segments(t: Seq<char>) -> Option<Seq<SegmentView>> {
    let open = next_open(t, 0);
    let lead = seq![SegmentView::Literal(t.subrange(0, open))];
    if open >= t.len() {
        Some(lead)
    } else {
        match placeholders_from(t, open + 1) {
            Some(rest) => Some(lead + rest),
            None => None,
        }
    }
}

/// A segment written back as template text: a reference in braces.
pub open spec fn segment_source(s: SegmentView) -> Seq<char> {
    match s {
        SegmentView::Literal(text) => text,
        SegmentView::FieldRef(name) => seq!['{'] + name + seq!['}'],
    }
}

/// The template text that a sequence of segments stands for.
pub open spec fn segments_source(segs: Seq<SegmentView>) -> Seq<char> {
    segs.map_values(|s: SegmentView| segment_source(s)).flatten()
}

proof fn lemma_next_open_hit(t: Seq<char>, from: int)
    requires
        0 <= from <= t.len(),
        next_open(t, from) < t.len(),
    ensures
        t[next_open(t, from)] == '{',
    decreases t.len() - from,
{
    if t[from] != '{' {
        lemma_next_open_hit(t, from + 1);
    }
}

proof fn lemma_next_brace_hit(t: Seq<char>, from: int)
    requires
        0 <= from <= t.len(),
        next_brace(t, from) < t.len(),
    ensures
        t[next_brace(t, from)] == '{' || t[next_brace(t, from)] == '}',
    decreases t.len() - from,
{
    if t[from] != '{' && t[from] != '}' {
        lemma_next_brace_hit(t, from + 1);
    }
}

proof fn lemma_source_single(s: SegmentView)
    ensures
        segments_source(seq![s]) == segment_source(s),
{
    let m = seq![s].map_values(|x: SegmentView| segment_source(x));
    assert(m =~= seq![segment_source(s)]);
    m.lemma_flatten_one_element();
}

proof fn lemma_source_concat(a: Seq<SegmentView>, b: Seq<SegmentView>)
    ensures
        segments_source(a + b) == segments_source(a) + segments_source(b),
{
    let f = |x: SegmentView| segment_source(x);
    assert((a + b).map_values(f) =~= a.map_values(f) + b.map_values(f));
    lemma_flatten_concat(a.map_values(f), b.map_values(f));
}

proof fn lemma_placeholders_source(t: Seq<char>, p: int)
    requires
        1 <= p <= t.len(),
        t[p - 1] == '{',
        placeholders_from(t, p) is Some,
    ensures
        segments_source(placeholders_from(t, p)->Some_0) == t.subrange(p - 1, t.len() as int),
    decreases t.len() - p,
{
    let close = next_brace(t, p);
    lemma_next_brace_bounds(t, p);
    lemma_next_brace_hit(t, p);
    let open = next_open(t, close + 1);
    lemma_next_open_bounds(t, close + 1);
    let here = seq![
        SegmentView::FieldRef(t.subrange(p, close)),
        SegmentView::Literal(t.subrange(close + 1, open)),
    ];
    let head = seq!['{'] + t.subrange(p, close) + seq!['}'] + t.subrange(close + 1, open);
    let name_seg = SegmentView::FieldRef(t.subrange(p, close));
    let lit_seg = SegmentView::Literal(t.subrange(close + 1, open));
    assert(here =~= seq![name_seg] + seq![lit_seg]);
    lemma_source_single(name_seg);
    lemma_source_single(lit_seg);
    lemma_source_concat(seq![name_seg], seq![lit_seg]);
    assert(segments_source(here) =~= head);
    if open >= t.len() {
        assert(head =~= t.subrange(p - 1, t.len() as int));
    } else {
        lemma_next_open_hit(t, close + 1);
        let rest = placeholders_from(t, open + 1)->Some_0;
        lemma_placeholders_source(t, open + 1);
        lemma_source_concat(here, rest);
        assert(head + t.subrange(open, t.len() as int) =~= t.subrange(p - 1, t.len() as int));
    }
}

/// Writing the segments of a template back, each placeholder in braces,
/// gives the template again: analysis keeps every literal character and
/// loses nothing.
pub proof fn lemma_segments_rebuild_template(t: Seq<char>)
    requires
        template_segments(t) is Some,
    ensures
        segments_source(template_segments(t)->Some_0) == t,
{
    let open = next_open(t, 0);
    lemma_next_open_bounds(t, 0);
    let lead = seq![SegmentView::Literal(t.subrange(0, open))];
    lemma_source_single(SegmentView::Literal(t.subrange(0, open)));
    assert(segments_source(lead) =~= t.subrange(0, open));
    if open >= t.len() {
        assert(t.subrange(0, open) =~= t);
    } else {
        lemma_next_open_hit(t, 0);
        let rest = placeholders_from(t, open + 1)->Some_0;
        lemma_placeholders_source(t, open + 1);
        lemma_source_concat(lead, rest);
        assert(t.subrange(0, open) + t.subrange(open, t.len() as int) =~= t);
    }
}

fn next_open_at(t: &str, n: usize, from: usize) -> (r: usize)
    requires
        n == t@.len(),
        from <= n,
    ensures
        r == next_open(t@, from as int),
{
    let mut i = from;
    while i < n && t.get_char(i) != '{'
        invariant
            n == t@.len(),
            from <= i <= n,
            next_open(t@, i as int) == next_open(t@, from as int),
        decreases n - i,
    {
        i = i + 1;
    }
    i
}

fn next_brace_at(t: &str, n: usize, from: usize) -> (r: usize)
    requires
        n == t@.len(),
        from <= n,
    ensures
        r == next_brace(t@, from as int),
{
    let mut i = from;
    while i < n && t.get_char(i) != '{' && t.get_char(i) != '}'
        invariant
            n == t@.len(),
            from <= i <= n,
            next_brace(t@, i as int) == next_brace(t@, from as int),
        decreases n - i,
    {
        i = i + 1;
    }
    i
}

/// Splits `template` into its segments, or reports a `{` left open.
pub fn split_template(template: &str) -> (r: Result<Vec<TemplateSegment>, TemplateError>)
    ensures
        match template_segments(template@) {
            Some(segs) => r is Ok && segments_view(r->Ok_0@) == segs,
            None => r == Err::<Vec<TemplateSegment>, TemplateError>(
                TemplateError::UnterminatedPlaceholder,
            ),
        },
{
    let n = template.unicode_len();
    let t = Ghost(template@);
    let open = next_open_at(template, n, 0);
    proof {
        lemma_next_open_bounds(t@, 0);
    }
    let mut segs: Vec<TemplateSegment> = Vec::new();
    segs.push(TemplateSegment::Literal(String::from_str(template.substring_char(0, open))));
    assert(segments_view(segs@) =~= seq![SegmentView::Literal(t@.subrange(0, open as int))]);
    if open >= n {
        return Ok(segs);
    }
    let mut p = open + 1;
    loop
        invariant_except_break
            template_segments(t@) == match placeholders_from(t@, p as int) {
                Some(rest) => Some(segments_view(segs@) + rest),
                None => None,
            },
        invariant
            n == t@.len(),
            t@ == template@,
            0 < p <= n,
        ensures
            template_segments(t@) == Some(segments_view(segs@)),
        decreases n - p,
    {
        let close = next_brace_at(template, n, p);
        proof {
            lemma_next_brace_bounds(t@, p as int);
        }
        if close >= n || template.get_char(close) == '{' {
            return Err(TemplateError::UnterminatedPlaceholder);
        }
        let open = next_open_at(template, n, close + 1);
        proof {
            lemma_next_open_bounds(t@, close + 1);
        }
        let ghost before = segments_view(segs@);
        segs.push(TemplateSegment::FieldRef(String::from_str(template.substring_char(p, close))));
        segs.push(TemplateSegment::Literal(String::from_str(template.substring_char(close + 1, open))));
        let ghost here = seq![
            SegmentView::FieldRef(t@.subrange(p as int, close as int)),
            SegmentView::Literal(t@.subrange(close + 1, open as int)),
        ];
        assert(segments_view(segs@) =~= before + here);
        if open >= n {
            break ;
        }
        proof {
            match placeholders_from(t@, open + 1) {
                Some(rest) => {
                    assert(before + (here + rest) =~= (before + here) + rest);
                },
                None => {},
            }
        }
        p = open + 1;
    }
    Ok(segs)
}

} // verus!
