//! Small helpers on strings, stated over their character sequences.

use vstd::prelude::*;

verus! {

/// Appends one character with std's `String::push`: afterwards the string
/// holds the characters it held before, followed by `c`.
#[verifier::external_body]
pub(crate) fn push_char(s: &mut String, c: char)
    ensures
        final(s)@ == old(s)@.push(c),
{
    s.push(c);
}

/// Whether two string slices hold the same characters.
pub fn str_equal(a: &str, b: &str) -> (r: bool)
    ensures
        r == (a@ == b@),
{
    let x = a.to_owned();
    let y = b.to_owned();
    x == y
}

/// Whether a character is white space, as std's `char::is_whitespace` tells.
pub uninterp spec fn white_space(c: char) -> bool;

/// Asks std's `char::is_whitespace`; the answer is [`white_space`] of the
/// character.
#[verifier::external_body]
pub(crate) fn is_whitespace(c: char) -> (r: bool)
    ensures
        r == white_space(c),
{
    c.is_whitespace()
}

/// Whether a text holds nothing but white space, so that nothing is left of
/// it once it is trimmed.
pub open spec fn blank(s: Seq<char>) -> bool {
    forall|i: int| 0 <= i < s.len() ==> white_space(#[trigger] s[i])
}

/// Whether a text holds nothing but white space.
pub fn is_blank(s: &str) -> (r: bool)
    ensures
        r == blank(s@),
{
    let n = s.unicode_len();
    let mut i: usize = 0;
    while i < n
        invariant
            n == s@.len(),
            i <= n,
            forall|j: int| 0 <= j < i ==> white_space(#[trigger] s@[j]),
        decreases n - i,
    {
        if !is_whitespace(s.get_char(i)) {
            return false;
        }
        i += 1;
    }
    true
}

/// The number of characters of a string.
pub fn char_count(s: &String) -> (n: usize)
    ensures
        n == s@.len(),
{
    s.as_str().unicode_len()
}

/// Puts `c` before the character at place `at`, or at the end where `at` is
/// the length.
pub fn insert_char(s: &mut String, at: usize, c: char)
    requires
        at <= old(s)@.len(),
    ensures
        final(s)@ == old(s)@.insert(at as int, c),
{
    let n = s.as_str().unicode_len();
    let mut out = String::from_str(s.as_str().substring_char(0, at));
    push_char(&mut out, c);
    out.append(s.as_str().substring_char(at, n));
    assert(out@ =~= old(s)@.insert(at as int, c));
    *s = out;
}

/// Takes out the character at place `at`.
pub fn remove_char(s: &mut String, at: usize)
    requires
        at < old(s)@.len(),
    ensures
        final(s)@ == old(s)@.remove(at as int),
{
    let n = s.as_str().unicode_len();
    let mut out = String::from_str(s.as_str().substring_char(0, at));
    out.append(s.as_str().substring_char(at + 1, n));
    assert(out@ =~= old(s)@.remove(at as int));
    *s = out;
}

/// Puts a file name behind a directory with std's `Path::join`, which
/// follows the rules of the platform. Nothing is claimed of the result.
#[verifier::external_body]
pub(crate) fn join_path(dir: &str, name: &str) -> (path: String) {
    std::path::Path::new(dir).join(name).to_string_lossy().into_owned()
}

} // verus!
