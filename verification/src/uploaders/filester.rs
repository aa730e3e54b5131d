use vstd::prelude::*;
use crate::strings::{concat2, concat3};
use crate::text::{chars_of, eq_ignore_case, eq_ignore_case_exec};
use crate::uploaders::error::UploadError;

verus! {

/// What a Filester upload answer comes to, given its `success`, `message` and
/// `url` as read from it (or why it could not be read).
pub open spec fn filester_outcome(parsed: Result<(bool, Seq<char>, Seq<char>), Seq<char>>) -> Result<
    Seq<char>,
    Seq<char>,
> {
    match parsed {
        Err(e) => Err("invalid Filester response: "@ + e),
        Ok((success, message, url)) => if !success {
            Err("Filester returned unsuccessful response: "@ + message)
        } else {
            Ok(url)
        },
    }
}

/// Turns a Filester upload answer into its link or an error carrying the status.
pub fn upload_outcome(parsed: Result<(bool, String, String), String>, status_code: u16) -> (r: Result<
    Vec<String>,
    UploadError,
>)
    ensures
        match filester_outcome(
            match parsed {
                Ok((b, m, u)) => Ok((b, m@, u@)),
                Err(e) => Err(e@),
            },
        ) {
            Ok(u) => r matches Ok(v) && v@.len() == 1 && v@[0]@ == u,
            Err(m) => r matches Err(e) && e.message@ == m && e.status_code == Some(status_code),
        },
{
    match parsed {
        Err(e) => Err(UploadError {
            message: concat2("invalid Filester response: ", e.as_str()),
            status_code: Some(status_code),
        }),
        Ok((success, message, url)) => {
            if !success {
                return Err(UploadError {
                    message: concat2("Filester returned unsuccessful response: ", message.as_str()),
                    status_code: Some(status_code),
                });
            }
            let mut v: Vec<String> = Vec::new();
            v.push(url);
            Ok(v)
        },
    }
}

/// The position of the first folder whose name matches `name` ignoring ASCII case,
/// or -1.
pub open spec fn folder_index(folders: Seq<(Seq<char>, Seq<char>)>, name: Seq<char>) -> int
    decreases folders.len(),
{
    if folders.len() == 0 {
        -1
    } else if eq_ignore_case(folders[0].1, name) {
        0
    } else {
        let r = folder_index(folders.drop_first(), name);
        if r < 0 {
            -1
        } else {
            r + 1
        }
    }
}

/// Finds the folder named `folder_name` (ignoring ASCII case) in a folder listing
/// of `(id, name)` pairs, given whether the listing succeeded: its id, or an error.
pub fn folder_id_outcome(
    success: bool,
    folders: Option<Vec<(String, String)>>,
    folder_name: &str,
    status_code: u16,
) -> (r: Result<Option<String>, UploadError>)
    ensures
        !success ==> (r matches Err(e) && e.message@
            == "Filester returned unsuccessful response when listing folders"@ && e.status_code
            == Some(status_code)),
        success ==> match folders {
            Some(fs) => {
                let v = fs@.map_values(|f: (String, String)| (f.0@, f.1@));
                if folder_index(v, folder_name@) >= 0 {
                    r matches Ok(Some(id)) && id@ == v[folder_index(v, folder_name@)].0
                } else {
                    r matches Err(e) && e.message@ == "folder '"@ + folder_name@ + "' not found"@
                        && e.status_code is None
                }
            },
            None => r matches Err(e) && e.message@ == "folder '"@ + folder_name@ + "' not found"@
                && e.status_code is None,
        },
{
    if !success {
        return Err(UploadError {
            message: "Filester returned unsuccessful response when listing folders".to_owned(),
            status_code: Some(status_code),
        });
    }
    if let Some(fs) = folders {
        let ghost v = fs@.map_values(|f: (String, String)| (f.0@, f.1@));
        let wanted = chars_of(folder_name);
        let mut i: usize = 0;
        assert(v.skip(0) =~= v);
        while i < fs.len()
            invariant
                i <= fs@.len(),
                success,
                folders == Some(fs),
                v == fs@.map_values(|f: (String, String)| (f.0@, f.1@)),
                wanted@ == folder_name@,
                folder_index(v, folder_name@) == if folder_index(v.skip(i as int), folder_name@) < 0 {
                    -1
                } else {
                    folder_index(v.skip(i as int), folder_name@) + i
                },
            decreases fs@.len() - i,
        {
            assert(v.skip(i as int).drop_first() =~= v.skip(i + 1));
            assert(v.skip(i as int)[0] == v[i as int]);
            if eq_ignore_case_exec(chars_of(fs[i].1.as_str()).as_slice(), wanted.as_slice()) {
                return Ok(Some(fs[i].0.clone()));
            }
            i = i + 1;
        }
        assert(v.skip(i as int).len() == 0);
    }
    Err(UploadError { message: concat3("folder '", folder_name, "' not found"), status_code: None })
}

} // verus!
