//! Building strings out of pieces.
use vstd::prelude::*;
use vstd::utf8::is_ascii_chars;

verus! {

/// Appends one ASCII character to an ASCII string (`String::push`).
///
/// Trusted: the new contents are the old contents followed by `c`. Every character being
/// one byte long, the string holds as many bytes as characters, which keeps it below the
/// largest size a `String` can reach.
#[verifier::external_body]
pub(crate) fn push_char(s: &mut String, c: char)
    requires
        is_ascii_chars(old(s)@),
        c <= '\u{7f}',
        old(s)@.len() < usize::MAX / 2,
    ensures
        final(s)@ == old(s)@.push(c),
{
    s.push(c);
}

/// The concatenation of two strings.
pub fn join(first: &str, second: &str) -> (r: String)
    ensures
        r@ == first@ + second@,
{
    let mut r = String::from_str(first);
    r.append(second);
    r
}

/// The concatenation of three strings.
pub fn join3(first: &str, second: &str, third: &str) -> (r: String)
    ensures
        r@ == first@ + second@ + third@,
{
    let mut r = String::from_str(first);
    r.append(second);
    r.append(third);
    r
}

/// The concatenation of four strings.
pub fn join4(first: &str, second: &str, third: &str, fourth: &str) -> (r: String)
    ensures
        r@ == first@ + second@ + third@ + fourth@,
{
    let mut r = String::from_str(first);
    r.append(second);
    r.append(third);
    r.append(fourth);
    r
}

} // verus!
