use vstd::prelude::*;
use crate::strings::concat2;
use crate::text::{chars_of, trim, trim_chars};
use crate::uploaders::error::UploadError;

verus! {

/// What a Fileditch answer comes to, given the `error` it carries, if any, and
/// else its `success` and `url` as read from it (or why it could not be read): an
/// error text, an unreadable answer, an unsuccessful one and an empty link are
/// errors; else the link.
pub open spec fn fileditch_outcome(
    error: Option<Seq<char>>,
    parsed: Result<(bool, Seq<char>), Seq<char>>,
) -> Result<Seq<char>, Seq<char>> {
    match error {
        Some(e) => Err(e),
        None => match parsed {
            Err(e) => Err("invalid fileditch response: "@ + e),
            Ok((success, url)) => if !success {
                Err("fileditch returned unsuccessful response"@)
            } else if trim(url).len() == 0 {
                Err("fileditch upload succeeded but no file URL was returned"@)
            } else {
                Ok(url)
            },
        },
    }
}

/// Turns a Fileditch upload answer into its link or an error carrying the status.
pub fn parse_upload_response(
    error: Option<String>,
    parsed: Result<(bool, String), String>,
    status_code: u16,
) -> (r: Result<Vec<String>, UploadError>)
    ensures
        match fileditch_outcome(
            match error {
                Some(e) => Some(e@),
                None => None,
            },
            match parsed {
                Ok((b, u)) => Ok((b, u@)),
                Err(e) => Err(e@),
            },
        ) {
            Ok(u) => r matches Ok(v) && v@.len() == 1 && v@[0]@ == u,
            Err(m) => r matches Err(e) && e.message@ == m && e.status_code == Some(status_code),
        },
{
    if let Some(e) = error {
        return Err(UploadError { message: e, status_code: Some(status_code) });
    }
    match parsed {
        Err(e) => Err(UploadError {
            message: concat2("invalid fileditch response: ", e.as_str()),
            status_code: Some(status_code),
        }),
        Ok((success, url)) => {
            if !success {
                return Err(UploadError {
                    message: "fileditch returned unsuccessful response".to_owned(),
                    status_code: Some(status_code),
                });
            }
            if trim_chars(chars_of(url.as_str()).as_slice()).len() == 0 {
                return Err(UploadError {
                    message: "fileditch upload succeeded but no file URL was returned".to_owned(),
                    status_code: Some(status_code),
                });
            }
            let mut v: Vec<String> = Vec::new();
            v.push(url);
            Ok(v)
        },
    }
}

} // verus!
