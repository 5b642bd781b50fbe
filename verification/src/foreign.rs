//! The calls that the library makes into other crates and into parts of the
//! standard library that carry no specification. Nothing here is proved:
//! each contract is what the called code is taken to do.

use vstd::prelude::*;

verus! {

/// `windows_result::Error`, carried as an opaque value.
#[verifier::external_type_specification]
#[verifier::external_body]
pub struct ExWindowsError(windows_result::Error);

/// `serde_json::Error`, carried as an opaque value.
#[verifier::external_type_specification]
#[verifier::external_body]
pub struct ExJsonError(serde_json::Error);

/// `std::io::Error`, carried as an opaque value.
#[verifier::external_type_specification]
#[verifier::external_body]
pub struct ExIoError(std::io::Error);

/// The `Display` text of a `windows_result::Error`. It holds the system's
/// message for the error, so nothing is claimed of it.
#[verifier::external_body]
pub(crate) fn windows_error_text(error: &windows_result::Error) -> String {
    error.to_string()
}

/// The `Debug` text of a `windows_result::Error`. It holds the system's
/// message, so nothing is claimed of it.
#[verifier::external_body]
pub(crate) fn windows_error_debug(error: &windows_result::Error) -> String {
    format!("{:?}", error)
}

/// `windows_result::HRESULT::is_err`: a code is a failure exactly when it is
/// negative.
#[verifier::external_body]
pub(crate) fn hresult_is_err(code: i32) -> (r: bool)
    ensures
        r == (code < 0),
{
    windows_result::HRESULT(code).is_err()
}

/// `windows_result::HRESULT::message`: the text that the system gives for a
/// code. It depends on the machine, so nothing is claimed of it.
#[verifier::external_body]
pub(crate) fn hresult_message(code: i32) -> String {
    windows_result::HRESULT(code).message()
}

/// The `Display` text of a `serde_json::Error`. Nothing is claimed of it.
#[verifier::external_body]
pub(crate) fn json_error_text(error: &serde_json::Error) -> String {
    error.to_string()
}

/// The `Display` text of a `std::io::Error`. Nothing is claimed of it.
#[verifier::external_body]
pub(crate) fn io_error_text(error: &std::io::Error) -> String {
    error.to_string()
}

/// Whether `char::is_numeric` holds of a character: whether Unicode files it
/// under one of the general categories for numbers (Nd, Nl, No).
pub uninterp spec fn numeric_char(c: char) -> bool;

/// `char::is_numeric`. Of the characters below U+0080 the number categories
/// hold the ten digits `0` to `9` and no other.
#[verifier::external_body]
pub(crate) fn char_is_numeric(c: char) -> (r: bool)
    ensures
        r == numeric_char(c),
        (c as u32) < 0x80 ==> r == ('0' <= c <= '9'),
{
    c.is_numeric()
}

/// What the `Debug` form of a string is: the string between double quotes,
/// with the characters that `char::escape_debug` escapes written as escapes.
pub uninterp spec fn debug_text(s: Seq<char>) -> Seq<char>;

/// The `Debug` form of a string, as `{:?}` writes it.
#[verifier::external_body]
pub(crate) fn str_debug(s: &str) -> (r: String)
    ensures
        r@ == debug_text(s@),
{
    format!("{:?}", s)
}

} // verus!
