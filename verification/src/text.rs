//! Small text helpers, stated over the characters of a string.

use vstd::prelude::*;

verus! {

/// Whether two strings hold the same characters.
pub fn same_text(a: &str, b: &str) -> (same: bool)
    ensures
        same == (a@ == b@),
{
    let n = a.unicode_len();
    if n != b.unicode_len() {
        return false;
    }
    let mut i: usize = 0;
    while i < n
        invariant
            i <= n,
            n == a@.len(),
            n == b@.len(),
            forall|j: int| 0 <= j < i ==> a@[j] == b@[j],
        decreases n - i,
    {
        if a.get_char(i) != b.get_char(i) {
            return false;
        }
        i += 1;
    }
    assert(a@ =~= b@);
    true
}

/// Whether `text` begins with `prefix`.
pub fn starts_with(text: &str, prefix: &str) -> (found: bool)
    ensures
        found == prefix@.is_prefix_of(text@),
{
    let n = prefix.unicode_len();
    if text.unicode_len() < n {
        return false;
    }
    let mut i: usize = 0;
    while i < n
        invariant
            i <= n,
            n == prefix@.len(),
            n <= text@.len(),
            forall|j: int| 0 <= j < i ==> text@[j] == prefix@[j],
        decreases n - i,
    {
        if text.get_char(i) != prefix.get_char(i) {
            return false;
        }
        i += 1;
    }
    assert(prefix@ =~= text@.subrange(0, n as int));
    true
}

/// How many times `c` stands at the start of `text` before any other
/// character.
pub open spec fn leading_run(text: Seq<char>, c: char) -> nat
    decreases text.len(),
{
    if text.len() > 0 && text[0] == c {
        1 + leading_run(text.drop_first(), c)
    } else {
        0
    }
}

/// `text` without the run of `c` at its start.
pub open spec fn without_leading(text: Seq<char>, c: char) -> Seq<char> {
    text.skip(leading_run(text, c) as int)
}

/// The run at the start of `text` is made of `c` alone, and ends before the
/// first character that is not `c`.
pub proof fn leading_run_spans(text: Seq<char>, c: char, n: int)
    requires
        0 <= n <= text.len(),
        forall|j: int| 0 <= j < n ==> text[j] == c,
        n == text.len() || text[n] != c,
    ensures
        leading_run(text, c) == n,
    decreases text.len(),
{
    if n > 0 {
        leading_run_spans(text.drop_first(), c, n - 1);
    }
}

/// Cuts the run of `c` off the start of `text`.
pub fn trim_start_matches(text: &str, c: char) -> (rest: &str)
    ensures
        rest@ == without_leading(text@, c),
{
    let n = text.unicode_len();
    let mut i: usize = 0;
    while i < n && text.get_char(i) == c
        invariant
            i <= n,
            n == text@.len(),
            forall|j: int| 0 <= j < i ==> text@[j] == c,
        decreases n - i,
    {
        i += 1;
    }
    proof {
        leading_run_spans(text@, c, i as int);
    }
    text.substring_char(i, n)
}

} // verus!
