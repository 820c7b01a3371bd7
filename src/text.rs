//! Small operations on text.
use vstd::prelude::*;

verus! {

/// Tells whether two strings hold the same characters.
pub fn same_text(a: &str, b: &str) -> (r: bool)
    ensures
        r == (a@ == b@),
{
    let n = a.unicode_len();
    if n != b.unicode_len() {
        return false;
    }
    let mut i: usize = 0;
    while i < n
        invariant
            n == a@.len(),
            n == b@.len(),
            0 <= i <= n,
            forall|j: int| 0 <= j < i ==> a@[j] == b@[j],
        decreases n - i,
    {
        if a.get_char(i) != b.get_char(i) {
            return false;
        }
        i = i + 1;
    }
    assert(a@ =~= b@);
    true
}

/// Tells whether `field_name`, written in braces, occurs in `url_pattern`.
pub fn is_path_param(field_name: &str, url_pattern: &str) -> (r: bool)
    ensures
        r == exists|i: int|
            0 <= i && i + field_name@.len() + 2 <= url_pattern@.len() && #[trigger] url_pattern@.subrange(
                i,
                i + field_name@.len() + 2,
            ) == seq!['{'] + field_name@ + seq!['}'],
{
    let n = field_name.unicode_len();
    let m = url_pattern.unicode_len();
    let ghost target = seq!['{'] + field_name@ + seq!['}'];
    if m < 2 || n > m - 2 {
        assert forall|i: int|
            0 <= i && i + n + 2 <= m implies #[trigger] url_pattern@.subrange(i, i + n + 2) != target by {}
        return false;
    }
    let last = m - n - 2;
    let mut i: usize = 0;
    while i <= last
        invariant
            n == field_name@.len(),
            m == url_pattern@.len(),
            last + n + 2 == m,
            target == seq!['{'] + field_name@ + seq!['}'],
            0 <= i <= last + 1,
            forall|k: int|
                0 <= k < i ==> #[trigger] url_pattern@.subrange(k, k + n + 2) != target,
        decreases last + 1 - i,
    {
        if matches_at(url_pattern, field_name, i, n) {
            assert(url_pattern@.subrange(i as int, i + n + 2) =~= target);
            return true;
        }
        assert(url_pattern@.subrange(i as int, i + n + 2) != target);
        i = i + 1;
    }
    assert forall|k: int|
        0 <= k && k + n + 2 <= m implies #[trigger] url_pattern@.subrange(k, k + n + 2) != target by {}
    false
}

/// Whether `{name}` starts at position `i` of `pattern`.
fn matches_at(pattern: &str, name: &str, i: usize, n: usize) -> (r: bool)
    requires
        n == name@.len(),
        i + n + 2 <= pattern@.len() <= usize::MAX,
    ensures
        r == (pattern@.subrange(i as int, i + n + 2) == seq!['{'] + name@ + seq!['}']),
{
    let ghost target = seq!['{'] + name@ + seq!['}'];
    let ghost window = pattern@.subrange(i as int, i + n + 2);
    if pattern.get_char(i) != '{' {
        assert(window[0] != target[0]);
        return false;
    }
    if pattern.get_char(i + n + 1) != '}' {
        assert(window[n + 1] != target[n + 1]);
        return false;
    }
    let mut j: usize = 0;
    while j < n
        invariant
            n == name@.len(),
            i + n + 2 <= pattern@.len() <= usize::MAX,
            0 <= j <= n,
            window == pattern@.subrange(i as int, i + n + 2),
            target == seq!['{'] + name@ + seq!['}'],
            forall|k: int| 0 <= k < j ==> pattern@[i + 1 + k] == name@[k],
        decreases n - j,
    {
        if pattern.get_char(i + 1 + j) != name.get_char(j) {
            assert(window[j + 1] != target[j + 1]);
            return false;
        }
        j = j + 1;
    }
    assert(window =~= target);
    true
}

} // verus!
