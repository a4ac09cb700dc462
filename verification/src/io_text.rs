//! The text of an I/O error.

use vstd::prelude::*;

verus! {

/// An error of the operating system's I/O, carried through unchanged.
#[verifier::external_type_specification]
#[verifier::external_body]
pub struct ExIoError(std::io::Error);

/// Prints an I/O error with `std::io::Error`'s `Display`. Nothing is claimed
/// of the text.
#[verifier::external_body]
pub(crate) fn io_error_text(error: &std::io::Error) -> (text: String) {
    format!("{}", error)
}

} // verus!
