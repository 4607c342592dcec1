//! Text helpers: UTF-8 decoding, string comparison and message formatting.

use vstd::prelude::*;
use vstd::string::*;
use vstd::utf8::*;
use std::string::FromUtf8Error;
use crate::error::{decimal, usize_to_decimal, join_text};

verus! {

#[verifier::external_type_specification]
#[verifier::external_body]
pub struct ExFromUtf8Error(FromUtf8Error);

/// `String::from_utf8`: succeeds exactly when the bytes are valid UTF-8, and
/// then holds the characters they encode.
#[verifier::external_body]
pub(crate) fn string_from_utf8(v: Vec<u8>) -> (r: std::result::Result<String, FromUtf8Error>)
    ensures
        r is Ok <==> valid_utf8(v@),
        r matches Ok(s) ==> s@ == decode_utf8(v@),
{
    String::from_utf8(v)
}

/// `format!("{}{}", prefix, e)` for a UTF-8 decoding error: the text starts
/// with `prefix`; what follows is the error's own `Display` text from `std`,
/// of which nothing is stated.
#[verifier::external_body]
pub(crate) fn utf8_error_text(prefix: &str, e: &FromUtf8Error) -> (r: String)
    ensures
        r@.len() >= prefix@.len(),
        r@.subrange(0, prefix@.len() as int) == prefix@,
{
    format!("{}{}", prefix, e)
}

/// The message for a string whose declared length exceeds the bytes left.
pub(crate) fn need_have_text(need: usize, have: usize) -> (r: String)
    ensures
        r@ == "Insufficient data for string: need "@ + decimal(need as nat) + ", have "@ + decimal(have as nat),
{
    let need_text = usize_to_decimal(need);
    let have_text = usize_to_decimal(have);
    let a = join_text("Insufficient data for string: need ", need_text.as_str());
    let b = join_text(a.as_str(), ", have ");
    let r = join_text(b.as_str(), have_text.as_str());
    assert(r@ =~= "Insufficient data for string: need "@ + decimal(need as nat) + ", have "@ + decimal(have as nat));
    r
}

/// Whether two strings hold the same characters.
pub(crate) fn str_eq(a: &str, b: &str) -> (r: bool)
    ensures
        r == (a@ == b@),
{
    let x = str_chars(a);
    let y = str_chars(b);
    if x.len() != y.len() {
        return false;
    }
    let mut i: usize = 0;
    while i < x.len()
        invariant
            x@ == a@,
            y@ == b@,
            x@.len() == y@.len(),
            i <= x@.len(),
            forall|j: int| 0 <= j < i ==> x@[j] == y@[j],
        decreases x@.len() - i,
    {
        if x[i] != y[i] {
            return false;
        }
        i = i + 1;
    }
    assert(a@ =~= b@);
    true
}

/// A string made of the given text.
pub(crate) fn owned(s: &str) -> (r: String)
    ensures
        r@ == s@,
{
    String::from_str(s)
}

/// The characters of `s`, in order.
pub(crate) fn str_chars(s: &str) -> (r: Vec<char>)
    ensures
        r@ == s@,
{
    let n = s.unicode_len();
    let mut out: Vec<char> = Vec::new();
    let mut i: usize = 0;
    while i < n
        invariant
            n == s@.len(),
            i <= n,
            out@ == s@.take(i as int),
        decreases n - i,
    {
        let c = s.get_char(i);
        out.push(c);
        i = i + 1;
        assert(out@ =~= s@.take(i as int));
    }
    assert(out@ =~= s@);
    out
}

} // verus!
