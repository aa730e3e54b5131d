use vstd::prelude::*;
use crate::paths::{file_name_of, path_file_name};
use crate::uploaders::error::UploadError;

verus! {

/// `std::io::Error`, carried through as it is.
#[verifier::external_type_specification]
#[verifier::external_body]
pub struct ExIoError(std::io::Error);

/// The text of an I/O error, as its `Display` gives it; it depends on the
/// operating system, and nothing is stated of it.
#[verifier::external_body]
fn io_error_text(error: &std::io::Error) -> String {
    error.to_string()
}

/// An upload error from an I/O error: its text, with no HTTP status.
pub fn map_io_error(error: std::io::Error) -> (e: UploadError)
    ensures
        e.status_code is None,
{
    UploadError { message: io_error_text(&error), status_code: None }
}

/// The file name of a path, or an empty text when it has none.
pub fn file_name_from_path(file_path: &str) -> (s: String)
    ensures
        s@ == match path_file_name(file_path@) {
            Some(n) => n,
            None => Seq::empty(),
        },
{
    match file_name_of(file_path) {
        Some(n) => n,
        None => String::new(),
    }
}

} // verus!
