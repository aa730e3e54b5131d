use vstd::prelude::*;
use crate::strings::{concat2, u64_string};
use crate::text::{dec, string_from_chars};
use crate::uploaders::error::UploadError;
use vstd::string::StringSliceAdditionalSpecFns;

verus! {

/// The value of an ASCII hexadecimal digit.
pub open spec fn hex_value(b: u8) -> Option<u32> {
    if 48 <= b <= 57 {
        Some((b - 48) as u32)
    } else if 97 <= b <= 102 {
        Some((b - 87) as u32)
    } else if 65 <= b <= 70 {
        Some((b - 55) as u32)
    } else {
        None
    }
}

fn hex_value_exec(b: u8) -> (r: Option<u32>)
    ensures
        r == hex_value(b),
{
    if 48 <= b && b <= 57 {
        Some((b - 48) as u32)
    } else if 97 <= b && b <= 102 {
        Some((b - 87) as u32)
    } else if 65 <= b && b <= 70 {
        Some((b - 55) as u32)
    } else {
        None
    }
}

/// What percent-decoding makes of the bytes `b`: each `%` with the two bytes after
/// it becomes the character of that hexadecimal value, or `%` alone (the two
/// bytes dropped) when they are not both hex digits; every other byte becomes the
/// character of the same value.
pub open spec fn percent_decode(b: Seq<u8>) -> Seq<char>
    decreases b.len(),
{
    if b.len() == 0 {
        Seq::empty()
    } else if b[0] == 37 {
        let hi = if b.len() > 1 {
            hex_value(b[1])
        } else {
            None
        };
        let lo = if b.len() > 2 {
            hex_value(b[2])
        } else {
            None
        };
        let used: int = if b.len() >= 3 {
            3
        } else {
            b.len() as int
        };
        let head = match (hi, lo) {
            (Some(h), Some(l)) => seq![((h * 16 + l) as u8) as char],
            _ => seq!['%'],
        };
        head + percent_decode(b.skip(used))
    } else {
        seq![b[0] as char] + percent_decode(b.drop_first())
    }
}

/// Decodes `%XX` escapes of a cookie value, byte by byte.
pub fn url_decode(s: &str) -> (r: String)
    ensures
        r@ == percent_decode(s.spec_bytes()),
{
    let bytes = s.as_bytes();
    let mut out: Vec<char> = Vec::new();
    let mut i: usize = 0;
    assert(bytes@.skip(0) == bytes@);
    while i < bytes.len()
        invariant
            i <= bytes@.len(),
            bytes@ == s.spec_bytes(),
            out@ + percent_decode(bytes@.skip(i as int)) == percent_decode(s.spec_bytes()),
        decreases bytes@.len() - i,
    {
        let ghost rest = bytes@.skip(i as int);
        let ghost before = out@;
        let b = bytes[i];
        if b == 37 {
            let hi = if bytes.len() - i > 1 {
                hex_value_exec(bytes[i + 1])
            } else {
                None
            };
            let lo = if bytes.len() - i > 2 {
                hex_value_exec(bytes[i + 2])
            } else {
                None
            };
            let used: usize = if bytes.len() - i >= 3 {
                3
            } else {
                bytes.len() - i
            };
            match (hi, lo) {
                (Some(h), Some(l)) => {
                    let v: u8 = (h * 16 + l) as u8;
                    out.push(v as char);
                },
                _ => {
                    out.push('%');
                },
            }
            proof {
                assert(rest[0] == b);
                if i + 1 < bytes@.len() {
                    assert(rest[1] == bytes@[i + 1]);
                }
                if i + 2 < bytes@.len() {
                    assert(rest[2] == bytes@[i + 2]);
                }
                assert(rest.skip(used as int) == bytes@.skip(i + used));
            }
            i = i + used;
        } else {
            out.push(b as char);
            proof {
                assert(rest[0] == b);
                assert(rest.drop_first() == bytes@.skip(i + 1));
            }
            i = i + 1;
        }
        assert(out@ + percent_decode(bytes@.skip(i as int)) =~= before + percent_decode(rest));
    }
    assert(bytes@.skip(i as int).len() == 0);
    assert(out@ + Seq::<char>::empty() == out@);
    string_from_chars(out.as_slice())
}

/// What a jpg6 upload answer comes to, given its status and the image's
/// `medium_url` as read from the answer (or why the answer could not be read):
/// an unreadable answer, a status outside 200..300, and a missing link are
/// errors; else the link.
pub open spec fn jpg6_outcome(medium_url: Result<Option<Seq<char>>, Seq<char>>, status: u16) -> Result<
    Seq<char>,
    Seq<char>,
> {
    match medium_url {
        Err(e) => Err("invalid jpg6 response: "@ + e),
        Ok(url) => if !(200 <= status < 300) {
            Err("jpg6 upload failed with HTTP "@ + dec(status as nat))
        } else {
            match url {
                Some(u) => Ok(u),
                None => Err("jpg6 upload succeeded but no URL was returned"@),
            }
        },
    }
}

/// Turns a jpg6 upload answer into its links or an error carrying the status.
pub fn parse_upload_response(medium_url: Result<Option<String>, String>, status_code: u16) -> (r: Result<
    Vec<String>,
    UploadError,
>)
    ensures
        match jpg6_outcome(
            match medium_url {
                Ok(Some(u)) => Ok(Some(u@)),
                Ok(None) => Ok(None),
                Err(e) => Err(e@),
            },
            status_code,
        ) {
            Ok(u) => r matches Ok(v) && v@.len() == 1 && v@[0]@ == u,
            Err(m) => r matches Err(e) && e.message@ == m && e.status_code == Some(status_code),
        },
{
    let url = match medium_url {
        Err(e) => {
            return Err(UploadError {
                message: concat2("invalid jpg6 response: ", e.as_str()),
                status_code: Some(status_code),
            })
        },
        Ok(u) => u,
    };
    if !(200 <= status_code && status_code < 300) {
        let n = u64_string(status_code as u64);
        return Err(UploadError {
            message: concat2("jpg6 upload failed with HTTP ", n.as_str()),
            status_code: Some(status_code),
        });
    }
    match url {
        Some(u) => {
            let mut v: Vec<String> = Vec::new();
            v.push(u);
            Ok(v)
        },
        None => Err(UploadError {
            message: "jpg6 upload succeeded but no URL was returned".to_owned(),
            status_code: Some(status_code),
        }),
    }
}

/// Whether a session answer shows a signed-in user; an unreadable answer is an
/// error carrying the status.
pub fn session_outcome(has_user: Result<bool, String>, status_code: u16) -> (r: Result<bool, UploadError>)
    ensures
        match has_user {
            Ok(b) => r == Ok::<bool, UploadError>(b),
            Err(e) => r matches Err(u) && u.message@ == "invalid auth/me response: "@ + e@
                && u.status_code == Some(status_code),
        },
{
    match has_user {
        Ok(b) => Ok(b),
        Err(e) => Err(UploadError {
            message: concat2("invalid auth/me response: ", e.as_str()),
            status_code: Some(status_code),
        }),
    }
}

} // verus!
