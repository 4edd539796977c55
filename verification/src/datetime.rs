//! Rendering of registry timestamps as date-time text.

use vstd::prelude::*;

verus! {

/// The text that the registry SDK's date-time renderer produces for the
/// instant `seconds`/`subsec_nanos` past the Unix epoch. The rendering is
/// a function of those two numbers alone.
pub uninterp spec fn datetime_text(seconds: int, subsec_nanos: int) -> Seq<char>;

/// Relies on `aws_smithy_types::DateTime` (re-exported under
/// `aws_sdk_ecr::primitives`): `from_secs` and `set_subsec_nanos` store the
/// two numbers as the instant's fields with no panic on any input, and
/// `fmt` with the `DateTime` format is an RFC-3339 rendering computed from
/// those two fields alone, with the empty string for an instant the format
/// cannot represent.
#[verifier::external_body]
pub(crate) fn format_datetime(seconds: i64, subsec_nanos: u32) -> (r: String)
    ensures
        r@ == datetime_text(seconds as int, subsec_nanos as int),
{
    let mut instant = aws_sdk_ecr::primitives::DateTime::from_secs(seconds);
    instant.set_subsec_nanos(subsec_nanos);
    instant
        .fmt(aws_sdk_ecr::primitives::DateTimeFormat::DateTime)
        .unwrap_or_default()
}

} // verus!
