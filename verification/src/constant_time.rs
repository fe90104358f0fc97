//! Equality of byte sequences in time that does not depend on where they differ.

use subtle::ConstantTimeEq;
use vstd::prelude::*;
use vstd::utf8::encode_utf8;
use vstd::utf8::encode_utf8_decode_utf8;

verus! {

/// Compares two byte sequences with `subtle::ConstantTimeEq::ct_eq` for slices and
/// turns the `subtle::Choice` it returns into a `bool`.
///
/// Trusted, not proved. That call answers "not equal" at once when the lengths differ,
/// and otherwise combines the comparison of every pair of bytes without stopping at the
/// first difference; the choice is set exactly when the two slices hold the same bytes.
/// Nothing is claimed here about the time the call takes.
#[verifier::external_body]
pub(crate) fn constant_time_eq(a: &[u8], b: &[u8]) -> (equal: bool)
    ensures
        equal == (a@ == b@),
{
    a.ct_eq(b).into()
}

/// Two texts have the same UTF-8 bytes exactly when they are the same text.
pub proof fn lemma_same_bytes_same_text(a: Seq<char>, b: Seq<char>)
    ensures
        encode_utf8(a) == encode_utf8(b) <==> a == b,
{
    encode_utf8_decode_utf8(a);
    encode_utf8_decode_utf8(b);
}

/// Compares two texts by their UTF-8 bytes, in constant time for texts of one length.
pub(crate) fn constant_time_text_eq(a: &str, b: &str) -> (equal: bool)
    ensures
        equal == (a@ == b@),
{
    proof {
        lemma_same_bytes_same_text(a@, b@);
    }
    constant_time_eq(a.as_bytes(), b.as_bytes())
}

} // verus!
