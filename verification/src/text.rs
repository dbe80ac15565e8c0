//! Replacement of literal substrings.
//!
//! [`replace_literal`] says what replacing every occurrence of a substring
//! means; [`replace_all_literal`] computes it.

use vstd::prelude::*;
use vstd::string::StringExecFns;

verus! {

/// `text` with every non-overlapping occurrence of `needle`, taken from the
/// left, replaced by `marker`.
///
/// An empty `needle` occurs before every character and at the end, so the
/// marker is put in all of these places.
pub open spec fn replace_literal(text: Seq<char>, needle: Seq<char>, marker: Seq<char>) -> Seq<
    char,
>
    decreases text.len(),
{
    if needle.len() == 0 {
        if text.len() == 0 {
            marker
        } else {
            marker + seq![text[0]] + replace_literal(text.drop_first(), needle, marker)
        }
    } else if needle.is_prefix_of(text) {
        marker + replace_literal(text.skip(needle.len() as int), needle, marker)
    } else if text.len() == 0 {
        text
    } else {
        seq![text[0]] + replace_literal(text.drop_first(), needle, marker)
    }
}

/// `String::push`: appends one character to the end of the string.
#[verifier::external_body]
fn push_char(s: &mut String, c: char)
    ensures
        final(s)@ == old(s)@.push(c),
{
    s.push(c);
}

/// The characters of `s`, in order.
pub fn chars_of(s: &str) -> (v: Vec<char>)
    ensures
        v@ == s@,
{
    let mut v: Vec<char> = Vec::new();
    for c in it: s.chars()
        invariant
            it.seq() == s@,
            v@ == it.seq().take(it.index()),
    {
        v.push(c);
    }
    v
}

/// Whether `a` and `b` hold the same characters.
pub fn str_eq(a: &str, b: &str) -> (same: bool)
    ensures
        same == (a@ == b@),
{
    let x = chars_of(a);
    let y = chars_of(b);
    if x.len() != y.len() {
        return false;
    }
    let mut k: usize = 0;
    while k < x.len()
        invariant
            x@ == a@,
            y@ == b@,
            x.len() == y.len(),
            k <= x.len(),
            forall|j: int| 0 <= j < k ==> x@[j] == y@[j],
        decreases x.len() - k,
    {
        if x[k] != y[k] {
            return false;
        }
        k += 1;
    }
    assert(x@ =~= y@);
    true
}

/// Whether `needle` stands in `text` at position `at`.
fn occurs_at(text: &Vec<char>, at: usize, needle: &Vec<char>) -> (b: bool)
    requires
        at <= text.len(),
    ensures
        b == needle@.is_prefix_of(text@.skip(at as int)),
{
    if needle.len() > text.len() - at {
        return false;
    }
    let mut k: usize = 0;
    while k < needle.len()
        invariant
            at <= text.len(),
            needle.len() <= text.len() - at,
            k <= needle.len(),
            forall|j: int| 0 <= j < k ==> needle@[j] == text@[at + j],
        decreases needle.len() - k,
    {
        if needle[k] != text[at + k] {
            return false;
        }
        k += 1;
    }
    true
}

/// Replaces every occurrence of `needle` in `text` by `marker`.
pub fn replace_all_literal(text: &str, needle: &str, marker: &str) -> (out: String)
    ensures
        out@ == replace_literal(text@, needle@, marker@),
{
    let t = chars_of(text);
    let n = chars_of(needle);
    let mut out = String::new();
    let mut i: usize = 0;
    assert(t@.skip(0) =~= t@);
    while i < t.len()
        invariant
            i <= t.len(),
            out@ + replace_literal(t@.skip(i as int), n@, marker@) == replace_literal(
                t@,
                n@,
                marker@,
            ),
        decreases t.len() - i,
    {
        let ghost rest = t@.skip(i as int);
        if n.len() == 0 {
            out.append(marker);
            push_char(&mut out, t[i]);
            assert(rest.drop_first() =~= t@.skip(i + 1));
            i += 1;
        } else if occurs_at(&t, i, &n) {
            out.append(marker);
            assert(rest.skip(n@.len() as int) =~= t@.skip(i + n@.len()));
            i += n.len();
        } else {
            push_char(&mut out, t[i]);
            assert(rest.drop_first() =~= t@.skip(i + 1));
            i += 1;
        }
    }
    if n.len() == 0 {
        out.append(marker);
    }
    out
}

} // verus!
