//! Small string helpers over std operations that vstd leaves unspecified.

use vstd::prelude::*;

verus! {

/// Relies on String::push: appends exactly the given character.
#[verifier::external_body]
pub fn string_push(s: &mut String, c: char)
    ensures
        final(s)@ == old(s)@.push(c),
{
    s.push(c);
}

/// What `String::from_utf8` returns for a byte sequence: the decoded
/// character sequence when the bytes are valid UTF-8, absent otherwise.
pub uninterp spec fn utf8_decode(bytes: Seq<u8>) -> Option<Seq<char>>;

/// Relies on String::from_utf8: decodes the bytes when they are valid
/// UTF-8 and fails otherwise; the result depends on the bytes alone.
#[verifier::external_body]
pub fn utf8_to_string(bytes: Vec<u8>) -> (r: Option<String>)
    ensures
        (r is Some) == (utf8_decode(bytes@) is Some),
        r matches Some(s) ==> utf8_decode(bytes@) == Some(s@),
{
    String::from_utf8(bytes).ok()
}

/// What `String::from_utf8_lossy` returns for a byte sequence: the
/// decoded characters, with invalid sequences replaced by U+FFFD;
/// the result depends on the bytes alone.
pub uninterp spec fn utf8_decode_lossy(bytes: Seq<u8>) -> Seq<char>;

/// Relies on String::from_utf8_lossy; on valid UTF-8 it agrees with
/// `String::from_utf8`.
#[verifier::external_body]
pub fn utf8_to_string_lossy(bytes: &Vec<u8>) -> (r: String)
    ensures
        r@ == utf8_decode_lossy(bytes@),
        utf8_decode(bytes@) matches Some(s) ==> r@ == s,
{
    String::from_utf8_lossy(bytes).into_owned()
}

} // verus!
