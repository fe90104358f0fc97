//! Rendering a secret as a fixed mask.
//!
//! The secret types write the same text for every content. What a formatter has been
//! given is modelled by `written`, so that their `fmt` methods can say what they write.

use vstd::prelude::*;

verus! {

/// `std::fmt::Formatter`, the sink that `Debug` and `Display` write to. Its inside is
/// not known here; `written` stands for the text it has been given.
#[verifier::external_type_specification]
#[verifier::external_body]
pub struct ExFormatter<'a>(std::fmt::Formatter<'a>);

/// `std::fmt::Error`, the error that a formatter reports. It carries no data.
#[verifier::external_type_specification]
#[verifier::external_body]
pub struct ExFmtError(std::fmt::Error);

/// The text that has been written through a formatter so far.
pub uninterp spec fn written(f: std::fmt::Formatter<'_>) -> Seq<char>;

/// Writes `text` with `std::fmt::Formatter::write_str`.
///
/// Trusted, not proved. That call hands the text to the buffer behind the formatter,
/// without padding or other adjustment; when it reports success, the formatter has been
/// given exactly `text` after what it had before. Whether it succeeds is up to that
/// buffer, so nothing is said of a failure.
#[verifier::external_body]
pub(crate) fn write_text(f: &mut std::fmt::Formatter<'_>, text: &str) -> (r: Result<
    (),
    std::fmt::Error,
>)
    ensures
        r is Ok ==> written(*final(f)) == written(*old(f)) + text@,
{
    f.write_str(text)
}

} // verus!
