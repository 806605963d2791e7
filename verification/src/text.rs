use vstd::prelude::*;

verus! {

/// The formatter of `std::fmt`. Nothing is known of what it holds.
#[verifier::external_type_specification]
#[verifier::external_body]
pub struct ExFormatter<'a>(std::fmt::Formatter<'a>);

/// The error of `std::fmt`, which holds nothing.
#[verifier::external_type_specification]
#[verifier::external_body]
pub struct ExFmtError(std::fmt::Error);

/// Hands `text` to `std::fmt::Formatter::write_str`, which writes it to the
/// output behind the formatter, and returns what that returned. Nothing is
/// claimed: neither that the write succeeds nor what the output then holds.
#[verifier::external_body]
pub(crate) fn write_str(f: &mut std::fmt::Formatter<'_>, text: &str) -> std::fmt::Result {
    f.write_str(text)
}

} // verus!
