//! Secret binary data.

use crate::constant_time::constant_time_eq;
use crate::masking::write_text;
use crate::masking::written;
use crate::scrub::scrub_bytes;
use vstd::prelude::*;
use vstd::slice::slice_to_vec;
use vstd::std_specs::cmp::PartialEqSpecImpl;
use vstd::std_specs::convert::FromSpecImpl;
use zeroize::Zeroize;
use zeroize::ZeroizeOnDrop;

verus! {

/// Bytes that a secret can be made from, owned or borrowed.
pub trait ByteSource: Sized {
    /// The bytes that the source holds.
    spec fn bytes(&self) -> Seq<u8>;

    /// Hands the bytes over as an owned buffer.
    fn into_buffer(self) -> (buffer: Vec<u8>)
        ensures
            buffer@ == self.bytes(),
    ;
}

impl ByteSource for Vec<u8> {
    open spec fn bytes(&self) -> Seq<u8> {
        self@
    }

    fn into_buffer(self) -> (buffer: Vec<u8>) {
        self
    }
}

impl<'a> ByteSource for &'a [u8] {
    open spec fn bytes(&self) -> Seq<u8> {
        self@
    }

    fn into_buffer(self) -> (buffer: Vec<u8>) {
        slice_to_vec(self)
    }
}

impl<const N: usize> ByteSource for [u8; N] {
    open spec fn bytes(&self) -> Seq<u8> {
        self@
    }

    fn into_buffer(self) -> (buffer: Vec<u8>) {
        slice_to_vec(self.as_slice())
    }
}

/// A byte vector that holds sensitive data.
///
/// Its view is the content that `expose` hands out.
pub struct SecretBytes(Vec<u8>);

impl View for SecretBytes {
    type V = Seq<u8>;

    closed spec fn view(&self) -> Seq<u8> {
        self.0@
    }
}

impl SecretBytes {
    /// Makes a secret that holds the bytes of `secret`.
    pub fn new<S: ByteSource>(secret: S) -> (r: Self)
        ensures
            r@ == secret.bytes(),
    {
        SecretBytes(secret.into_buffer())
    }

    /// The secret bytes themselves. Keep them out of logs and error messages.
    pub fn expose(&self) -> (r: &[u8])
        ensures
            r@ == self@,
    {
        self.0.as_slice()
    }
}

impl std::fmt::Debug for SecretBytes {
    /// Writes `SecretBytes(***)`, whatever the secret holds.
    fn fmt(&self, f: &mut std::fmt::Formatter<'_>) -> (r: std::fmt::Result)
        ensures
            r is Ok ==> written(*final(f)) == written(*old(f)) + "SecretBytes(***)"@,
    {
        write_text(f, "SecretBytes(***)")
    }
}

impl std::fmt::Display for SecretBytes {
    /// Writes `***`, whatever the secret holds.
    fn fmt(&self, f: &mut std::fmt::Formatter<'_>) -> (r: std::fmt::Result)
        ensures
            r is Ok ==> written(*final(f)) == written(*old(f)) + "***"@,
    {
        write_text(f, "***")
    }
}

impl From<Vec<u8>> for SecretBytes {
    /// Makes a secret that holds the bytes of an owned vector.
    fn from(v: Vec<u8>) -> (r: Self)
        ensures
            r@ == v@,
    {
        Self::new(v)
    }
}

/// `from` is specified over the view, by its own `ensures`: no image of the source is
/// promised beyond the content that it exposes.
impl FromSpecImpl<Vec<u8>> for SecretBytes {
    open spec fn obeys_from_spec() -> bool {
        false
    }

    closed spec fn from_spec(v: Vec<u8>) -> Self {
        SecretBytes(v)
    }
}

impl<'a> From<&'a [u8]> for SecretBytes {
    /// Makes a secret that holds a copy of the bytes of a slice.
    fn from(s: &'a [u8]) -> (r: Self)
        ensures
            r@ == s@,
    {
        Self::new(s)
    }
}

/// `from` is specified over the view, by its own `ensures`: no image of the source is
/// promised beyond the content that it exposes.
impl<'a> FromSpecImpl<&'a [u8]> for SecretBytes {
    open spec fn obeys_from_spec() -> bool {
        false
    }

    closed spec fn from_spec(s: &'a [u8]) -> Self {
        arbitrary()
    }
}

impl AsRef<[u8]> for SecretBytes {
    /// The secret bytes themselves, as `expose` hands them out.
    fn as_ref(&self) -> (r: &[u8])
        ensures
            r@ == self@,
    {
        self.expose()
    }
}

impl Default for SecretBytes {
    /// The secret that holds no bytes.
    fn default() -> (r: Self)
        ensures
            r@ == Seq::<u8>::empty(),
    {
        Self::new(Vec::new())
    }
}

impl PartialEq for SecretBytes {
    /// Compares the contents in constant time.
    fn eq(&self, other: &Self) -> (r: bool)
        ensures
            r == (self@ == other@),
    {
        constant_time_eq(self.0.as_slice(), other.0.as_slice())
    }
}

impl PartialEqSpecImpl for SecretBytes {
    open spec fn obeys_eq_spec() -> bool {
        true
    }

    open spec fn eq_spec(&self, other: &Self) -> bool {
        self@ == other@
    }
}

impl Eq for SecretBytes {}

impl Clone for SecretBytes {
    /// A deep copy: a second secret with a buffer of its own and the same content.
    fn clone(&self) -> (r: Self)
        ensures
            r@ == self@,
    {
        SecretBytes(self.0.clone())
    }
}

impl Zeroize for SecretBytes {
    /// Erases the content. The secret stays usable and is empty afterwards.
    fn zeroize(&mut self)
        ensures
            final(self)@ == Seq::<u8>::empty(),
    {
        scrub_bytes(&mut self.0)
    }
}

impl ZeroizeOnDrop for SecretBytes {}

impl Drop for SecretBytes {
    /// Erases the content before the buffer is given back.
    fn drop(&mut self)
        ensures
            final(self)@ == Seq::<u8>::empty(),
        opens_invariants none
        no_unwind
    {
        scrub_bytes(&mut self.0)
    }
}

/// What `expose` returns of a secret made by `new` is what the source held, for an
/// owned source and for a borrowed one.
pub proof fn lemma_new_expose_round_trip<S: ByteSource>(
    source: S,
    secret: SecretBytes,
    exposed: &[u8],
)
    requires
        call_ensures(SecretBytes::new::<S>, (source,), secret),
        call_ensures(SecretBytes::expose, (&secret,), exposed),
    ensures
        exposed@ == source.bytes(),
{
}

/// What `expose` returns of the default secret is the empty byte sequence.
pub proof fn lemma_default_exposes_empty(secret: SecretBytes, exposed: &[u8])
    requires
        call_ensures(<SecretBytes as Default>::default, (), secret),
        call_ensures(SecretBytes::expose, (&secret,), exposed),
    ensures
        exposed@ == Seq::<u8>::empty(),
{
}

/// A secret converted from an owned vector exposes what one made by `new` from the same
/// content exposes.
pub proof fn lemma_from_owned_agrees_with_new<S: ByteSource>(
    owned: Vec<u8>,
    source: S,
    converted: SecretBytes,
    direct: SecretBytes,
)
    requires
        owned@ == source.bytes(),
        call_ensures(<SecretBytes as From<Vec<u8>>>::from, (owned,), converted),
        call_ensures(SecretBytes::new::<S>, (source,), direct),
    ensures
        converted@ == direct@,
{
}

/// A secret converted from a borrowed slice exposes what one made by `new` from the
/// same content exposes.
pub proof fn lemma_from_borrowed_agrees_with_new<S: ByteSource>(
    borrowed: &[u8],
    source: S,
    converted: SecretBytes,
    direct: SecretBytes,
)
    requires
        borrowed@ == source.bytes(),
        call_ensures(<SecretBytes as From<&[u8]>>::from, (borrowed,), converted),
        call_ensures(SecretBytes::new::<S>, (source,), direct),
    ensures
        converted@ == direct@,
{
}

/// Two secrets compare equal exactly when they expose the same content, and unequal
/// exactly when they do not; contents of different lengths are different.
pub proof fn lemma_equality_goes_by_exposed_content(
    a: SecretBytes,
    b: SecretBytes,
    exposed_a: &[u8],
    exposed_b: &[u8],
    equal: bool,
    unequal: bool,
)
    requires
        call_ensures(SecretBytes::expose, (&a,), exposed_a),
        call_ensures(SecretBytes::expose, (&b,), exposed_b),
        call_ensures(<SecretBytes as PartialEq>::eq, (&a, &b), equal),
        call_ensures(<SecretBytes as PartialEq>::ne, (&a, &b), unequal),
    ensures
        equal == (exposed_a@ == exposed_b@),
        unequal == (exposed_a@ != exposed_b@),
        exposed_a@.len() != exposed_b@.len() ==> !equal && unequal,
{
}

/// A clone exposes what its original exposes.
pub proof fn lemma_clone_exposes_same(
    original: SecretBytes,
    copy: SecretBytes,
    exposed_original: &[u8],
    exposed_copy: &[u8],
)
    requires
        call_ensures(<SecretBytes as Clone>::clone, (&original,), copy),
        call_ensures(SecretBytes::expose, (&original,), exposed_original),
        call_ensures(SecretBytes::expose, (&copy,), exposed_copy),
    ensures
        exposed_copy@ == exposed_original@,
{
}

} // verus!
