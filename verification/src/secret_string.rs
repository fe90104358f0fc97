//! Secret text.

use crate::constant_time::constant_time_text_eq;
use crate::constant_time::lemma_same_bytes_same_text;
use crate::masking::write_text;
use crate::masking::written;
use crate::scrub::scrub_text;
use std::convert::Infallible;
use std::str::FromStr;
use vstd::prelude::*;
use vstd::string::StringSliceAdditionalSpecFns;
use vstd::std_specs::cmp::PartialEqSpecImpl;
use vstd::std_specs::convert::FromSpecImpl;
use zeroize::Zeroize;
use zeroize::ZeroizeOnDrop;

verus! {

/// Text that a secret can be made from, owned or borrowed.
pub trait TextSource: Sized {
    /// The characters that the source holds.
    spec fn text(&self) -> Seq<char>;

    /// Hands the text over as an owned buffer.
    fn into_buffer(self) -> (buffer: String)
        ensures
            buffer@ == self.text(),
    ;
}

impl TextSource for String {
    open spec fn text(&self) -> Seq<char> {
        self@
    }

    fn into_buffer(self) -> (buffer: String) {
        self
    }
}

impl<'a> TextSource for &'a str {
    open spec fn text(&self) -> Seq<char> {
        self@
    }

    fn into_buffer(self) -> (buffer: String) {
        self.to_owned()
    }
}

/// A string that holds sensitive text.
///
/// Its view is the content that `expose` hands out.
pub struct SecretString(String);

impl View for SecretString {
    type V = Seq<char>;

    closed spec fn view(&self) -> Seq<char> {
        self.0@
    }
}

impl SecretString {
    /// Makes a secret that holds the text of `secret`.
    pub fn new<S: TextSource>(secret: S) -> (r: Self)
        ensures
            r@ == secret.text(),
    {
        SecretString(secret.into_buffer())
    }

    /// The secret text itself. Keep it out of logs and error messages.
    pub fn expose(&self) -> (r: &str)
        ensures
            r@ == self@,
    {
        self.0.as_str()
    }
}

impl std::fmt::Debug for SecretString {
    /// Writes `SecretString(***)`, whatever the secret holds.
    fn fmt(&self, f: &mut std::fmt::Formatter<'_>) -> (r: std::fmt::Result)
        ensures
            r is Ok ==> written(*final(f)) == written(*old(f)) + "SecretString(***)"@,
    {
        write_text(f, "SecretString(***)")
    }
}

impl std::fmt::Display for SecretString {
    /// Writes `***`, whatever the secret holds.
    fn fmt(&self, f: &mut std::fmt::Formatter<'_>) -> (r: std::fmt::Result)
        ensures
            r is Ok ==> written(*final(f)) == written(*old(f)) + "***"@,
    {
        write_text(f, "***")
    }
}

impl From<String> for SecretString {
    /// Makes a secret that holds the text of an owned string.
    fn from(s: String) -> (r: Self)
        ensures
            r@ == s@,
    {
        Self::new(s)
    }
}

/// `from` is specified over the view, by its own `ensures`: no image of the source is
/// promised beyond the content that it exposes.
impl FromSpecImpl<String> for SecretString {
    open spec fn obeys_from_spec() -> bool {
        false
    }

    closed spec fn from_spec(s: String) -> Self {
        SecretString(s)
    }
}

impl<'a> From<&'a str> for SecretString {
    /// Makes a secret that holds a copy of the text of a string slice.
    fn from(s: &'a str) -> (r: Self)
        ensures
            r@ == s@,
    {
        Self::new(s)
    }
}

/// `from` is specified over the view, by its own `ensures`: no image of the source is
/// promised beyond the content that it exposes.
impl<'a> FromSpecImpl<&'a str> for SecretString {
    open spec fn obeys_from_spec() -> bool {
        false
    }

    closed spec fn from_spec(s: &'a str) -> Self {
        arbitrary()
    }
}

impl AsRef<str> for SecretString {
    /// The secret text itself, as `expose` hands it out.
    fn as_ref(&self) -> (r: &str)
        ensures
            r@ == self@,
    {
        self.expose()
    }
}

impl Default for SecretString {
    /// The secret that holds no text.
    fn default() -> (r: Self)
        ensures
            r@ == Seq::<char>::empty(),
    {
        Self::new(String::new())
    }
}

impl FromStr for SecretString {
    type Err = Infallible;

    /// Any text is a secret: parsing never fails.
    fn from_str(s: &str) -> (r: Result<Self, Infallible>)
        ensures
            r matches Ok(secret) && secret@ == s@,
    {
        Ok(Self::new(s))
    }
}

impl PartialEq for SecretString {
    /// Compares the contents, as UTF-8 bytes, in constant time.
    fn eq(&self, other: &Self) -> (r: bool)
        ensures
            r == (self@ == other@),
    {
        constant_time_text_eq(self.0.as_str(), other.0.as_str())
    }
}

impl PartialEqSpecImpl for SecretString {
    open spec fn obeys_eq_spec() -> bool {
        true
    }

    open spec fn eq_spec(&self, other: &Self) -> bool {
        self@ == other@
    }
}

impl Eq for SecretString {}

impl Clone for SecretString {
    /// A deep copy: a second secret with a buffer of its own and the same content.
    fn clone(&self) -> (r: Self)
        ensures
            r@ == self@,
    {
        SecretString(self.0.clone())
    }
}

impl Zeroize for SecretString {
    /// Erases the content. The secret stays usable and is empty afterwards.
    fn zeroize(&mut self)
        ensures
            final(self)@ == Seq::<char>::empty(),
    {
        scrub_text(&mut self.0)
    }
}

impl ZeroizeOnDrop for SecretString {}

impl Drop for SecretString {
    /// Erases the content before the buffer is given back.
    fn drop(&mut self)
        ensures
            final(self)@ == Seq::<char>::empty(),
        opens_invariants none
        no_unwind
    {
        scrub_text(&mut self.0)
    }
}

/// What `expose` returns of a secret made by `new` is what the source held, for an
/// owned source and for a borrowed one.
pub proof fn lemma_new_expose_round_trip<S: TextSource>(
    source: S,
    secret: SecretString,
    exposed: &str,
)
    requires
        call_ensures(SecretString::new::<S>, (source,), secret),
        call_ensures(SecretString::expose, (&secret,), exposed),
    ensures
        exposed@ == source.text(),
{
}

/// What `expose` returns of the default secret is the empty text.
pub proof fn lemma_default_exposes_empty(secret: SecretString, exposed: &str)
    requires
        call_ensures(<SecretString as Default>::default, (), secret),
        call_ensures(SecretString::expose, (&secret,), exposed),
    ensures
        exposed@ == Seq::<char>::empty(),
{
}

/// A secret converted from an owned string exposes what one made by `new` from the same
/// content exposes.
pub proof fn lemma_from_owned_agrees_with_new<S: TextSource>(
    owned: String,
    source: S,
    converted: SecretString,
    direct: SecretString,
)
    requires
        owned@ == source.text(),
        call_ensures(<SecretString as From<String>>::from, (owned,), converted),
        call_ensures(SecretString::new::<S>, (source,), direct),
    ensures
        converted@ == direct@,
{
}

/// A secret converted from a borrowed string slice exposes what one made by `new` from
/// the same content exposes.
pub proof fn lemma_from_borrowed_agrees_with_new<S: TextSource>(
    borrowed: &str,
    source: S,
    converted: SecretString,
    direct: SecretString,
)
    requires
        borrowed@ == source.text(),
        call_ensures(<SecretString as From<&str>>::from, (borrowed,), converted),
        call_ensures(SecretString::new::<S>, (source,), direct),
    ensures
        converted@ == direct@,
{
}

/// Two secrets compare equal exactly when they expose the same text, which is when the
/// texts have the same UTF-8 bytes, and unequal exactly when they do not; texts of
/// different lengths are different.
pub proof fn lemma_equality_goes_by_exposed_content(
    a: SecretString,
    b: SecretString,
    exposed_a: &str,
    exposed_b: &str,
    equal: bool,
    unequal: bool,
)
    requires
        call_ensures(SecretString::expose, (&a,), exposed_a),
        call_ensures(SecretString::expose, (&b,), exposed_b),
        call_ensures(<SecretString as PartialEq>::eq, (&a, &b), equal),
        call_ensures(<SecretString as PartialEq>::ne, (&a, &b), unequal),
    ensures
        equal == (exposed_a@ == exposed_b@),
        equal == (exposed_a.spec_bytes() == exposed_b.spec_bytes()),
        unequal == (exposed_a@ != exposed_b@),
        exposed_a@.len() != exposed_b@.len() ==> !equal && unequal,
{
    lemma_same_bytes_same_text(exposed_a@, exposed_b@);
}

/// A clone exposes what its original exposes.
pub proof fn lemma_clone_exposes_same(
    original: SecretString,
    copy: SecretString,
    exposed_original: &str,
    exposed_copy: &str,
)
    requires
        call_ensures(<SecretString as Clone>::clone, (&original,), copy),
        call_ensures(SecretString::expose, (&original,), exposed_original),
        call_ensures(SecretString::expose, (&copy,), exposed_copy),
    ensures
        exposed_copy@ == exposed_original@,
{
}

} // verus!
