//! Erasure of buffers that held secret content.

use vstd::prelude::*;
use zeroize::Zeroize;

verus! {

/// Erases a byte buffer with `zeroize::Zeroize::zeroize` for `Vec<u8>`.
///
/// Trusted, not proved. That call overwrites the elements of the vector and its spare
/// capacity with zeros and then clears the vector (the crate describes it as `clear`
/// that also zeroes the backing memory), so the buffer is empty afterwards. Its only
/// panics guard sizes above `isize::MAX`, which a vector of bytes never has, so it
/// does not unwind. That the memory really holds zeros cannot be said here.
#[verifier::external_body]
pub(crate) fn scrub_bytes(buffer: &mut Vec<u8>)
    ensures
        final(buffer)@ == Seq::<u8>::empty(),
    opens_invariants none
    no_unwind
{
    buffer.zeroize()
}

/// Erases a text buffer with `zeroize::Zeroize::zeroize` for `String`.
///
/// Trusted, not proved. That call erases the byte vector behind the string as the one
/// for `Vec<u8>` does, so the text is empty afterwards, and it does not unwind.
#[verifier::external_body]
pub(crate) fn scrub_text(buffer: &mut String)
    ensures
        final(buffer)@ == Seq::<char>::empty(),
    opens_invariants none
    no_unwind
{
    buffer.zeroize()
}

} // verus!
