use vstd::prelude::*;
use crate::strings::{concat4, u64_string};
use crate::text::dec;

verus! {

/// Why an upload failed, with the HTTP status when there was one.
#[derive(Debug)]
pub struct UploadError {
    pub message: String,
    pub status_code: Option<u16>,
}

/// The text shown for an upload error: `HTTP {code}: {message}`, or the message.
pub open spec fn upload_error_text(e: UploadError) -> Seq<char> {
    match e.status_code {
        Some(code) => "HTTP "@ + dec(code as nat) + ": "@ + e.message@,
        None => e.message@,
    }
}

impl UploadError {
    /// The text shown for the error.
    pub fn describe(&self) -> (s: String)
        ensures
            s@ == upload_error_text(*self),
    {
        match self.status_code {
            Some(code) => {
                let n = u64_string(code as u64);
                concat4("HTTP ", n.as_str(), ": ", self.message.as_str())
            },
            None => self.message.clone(),
        }
    }
}

} // verus!
