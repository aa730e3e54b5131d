use vstd::prelude::*;
use crate::platform::{platform_index, PlatformConfig};
use crate::strings::{concat2, concat3, svec};

verus! {

/// The `token` subcommands.
#[derive(Clone, Debug)]
pub enum TokenAction {
    SaveBunkr { token: String },
    SaveGofile { token: String },
    SaveFilester { token: String },
    /// Save jpg6 session cookies given as a JSON object.
    SaveJpg6 { token: String },
    SavePlatform { platform_id: String, token: String },
    RemoveBunkr,
    RemoveGofile,
    RemoveFilester,
    RemoveJpg6,
    RemovePlatform { platform_id: String },
}

/// What a `token` subcommand does to the stored secrets.
#[derive(Clone, Debug)]
pub enum TokenTask {
    /// Store `token` in the keyring under `key`; `label` names it to the user.
    Save { key: String, token: String, label: String },
    /// Delete the keyring entry `key`; `label` names it to the user.
    Remove { key: String, label: String },
    /// Store jpg6 session cookies given as JSON text.
    SaveJpg6 { json: String },
    /// Delete the stored jpg6 session cookies.
    RemoveJpg6,
}

/// The keyring entry and the name of the platform `id`, or why there is none.
pub open spec fn platform_token_info(platforms: Seq<PlatformConfig>, id: Seq<char>) -> Result<
    (Seq<char>, Seq<char>),
    Seq<char>,
> {
    let i = platform_index(platforms, id);
    if i < 0 {
        Err("Unknown platform '"@ + id + "'. Check your platforms directory."@)
    } else {
        match platforms[i].token_name {
            Some(n) => Ok((n@, platforms[i].name@)),
            None => Err("Platform '"@ + id + "' does not use a token."@),
        }
    }
}

/// Finds the keyring entry and the name of a platform's token.
pub fn get_token_info_for_platform(platforms: &[PlatformConfig], platform_id: &str) -> (r: Result<
    (String, String),
    String,
>)
    ensures
        match platform_token_info(platforms@, platform_id@) {
            Ok((n, name)) => r matches Ok((a, b)) && a@ == n && b@ == name,
            Err(m) => r matches Err(e) && e@ == m,
        },
{
    let platform = match PlatformConfig::find_by_id(platforms, platform_id) {
        Some(p) => p,
        None => {
            return Err(concat3("Unknown platform '", platform_id, "'. Check your platforms directory."))
        },
    };
    match &platform.token_name {
        Some(n) => Ok((n.clone(), platform.name.clone())),
        None => Err(concat3("Platform '", platform_id, "' does not use a token.")),
    }
}

/// What a `token` subcommand does: which keyring entry it saves or removes and the
/// label it reports, or the jpg6 cookie file it writes or removes; a platform's
/// entry is the token name that the platform names.
pub open spec fn token_task_ok(action: TokenAction, platforms: Seq<PlatformConfig>, t: TokenTask) -> bool {
    match action {
        TokenAction::SaveBunkr { token } => t matches TokenTask::Save { key, token: x, label }
            && key@ == "bunkr_token"@ && x@ == token@ && label@ == "Bunkr token"@,
        TokenAction::SaveGofile { token } => t matches TokenTask::Save { key, token: x, label }
            && key@ == "gofile_token"@ && x@ == token@ && label@ == "GoFile token"@,
        TokenAction::SaveFilester { token } => t matches TokenTask::Save { key, token: x, label }
            && key@ == "filester_token"@ && x@ == token@ && label@ == "Filester token"@,
        TokenAction::SaveJpg6 { token } => t matches TokenTask::SaveJpg6 { json } && json@ == token@,
        TokenAction::SavePlatform { platform_id, token } => match platform_token_info(platforms, platform_id@) {
            Ok((n, name)) => t matches TokenTask::Save { key, token: x, label } && key@ == n && x@
                == token@ && label@ == name + " token"@,
            Err(_) => false,
        },
        TokenAction::RemoveBunkr => t matches TokenTask::Remove { key, label } && key@ == "bunkr_token"@
            && label@ == "Bunkr token"@,
        TokenAction::RemoveGofile => t matches TokenTask::Remove { key, label } && key@ == "gofile_token"@
            && label@ == "GoFile token"@,
        TokenAction::RemoveFilester => t matches TokenTask::Remove { key, label } && key@
            == "filester_token"@ && label@ == "Filester token"@,
        TokenAction::RemoveJpg6 => t is RemoveJpg6,
        TokenAction::RemovePlatform { platform_id } => match platform_token_info(platforms, platform_id@) {
            Ok((n, name)) => t matches TokenTask::Remove { key, label } && key@ == n && label@ == name
                + " token"@,
            Err(_) => false,
        },
    }
}

fn save_task(key: &str, token: String, label: &str) -> (t: TokenTask)
    ensures
        t matches TokenTask::Save { key: k, token: x, label: l } && k@ == key@ && x@ == token@ && l@
            == label@,
{
    TokenTask::Save { key: key.to_owned(), token, label: label.to_owned() }
}

fn remove_task(key: &str, label: &str) -> (t: TokenTask)
    ensures
        t matches TokenTask::Remove { key: k, label: l } && k@ == key@ && l@ == label@,
{
    TokenTask::Remove { key: key.to_owned(), label: label.to_owned() }
}

/// Decides what a `token` subcommand does; a platform subcommand fails when the
/// platform is unknown or uses no token.
pub fn handle_token_command(action: TokenAction, platforms: &[PlatformConfig]) -> (r: Result<TokenTask, String>)
    ensures
        match r {
            Ok(t) => token_task_ok(action, platforms@, t),
            Err(m) => (action matches TokenAction::SavePlatform { platform_id, .. } && platform_token_info(
                platforms@,
                platform_id@,
            ) == Err::<(Seq<char>, Seq<char>), Seq<char>>(m@)) || (action matches TokenAction::RemovePlatform {
                platform_id,
            } && platform_token_info(platforms@, platform_id@) == Err::<(Seq<char>, Seq<char>), Seq<char>>(m@)),
        },
        (action matches TokenAction::SavePlatform { platform_id, .. } && platform_token_info(
            platforms@,
            platform_id@,
        ) is Err) || (action matches TokenAction::RemovePlatform { platform_id } && platform_token_info(
            platforms@,
            platform_id@,
        ) is Err) || r is Ok,
{
    match action {
        TokenAction::SaveBunkr { token } => Ok(save_task("bunkr_token", token, "Bunkr token")),
        TokenAction::SaveGofile { token } => Ok(save_task("gofile_token", token, "GoFile token")),
        TokenAction::SaveFilester { token } => Ok(save_task("filester_token", token, "Filester token")),
        TokenAction::SaveJpg6 { token } => Ok(TokenTask::SaveJpg6 { json: token }),
        TokenAction::SavePlatform { platform_id, token } => {
            match get_token_info_for_platform(platforms, platform_id.as_str()) {
                Ok((key, name)) => {
                    let label = concat2(name.as_str(), " token");
                    Ok(save_task(key.as_str(), token, label.as_str()))
                },
                Err(e) => Err(e),
            }
        },
        TokenAction::RemoveBunkr => Ok(remove_task("bunkr_token", "Bunkr token")),
        TokenAction::RemoveGofile => Ok(remove_task("gofile_token", "GoFile token")),
        TokenAction::RemoveFilester => Ok(remove_task("filester_token", "Filester token")),
        TokenAction::RemoveJpg6 => Ok(TokenTask::RemoveJpg6),
        TokenAction::RemovePlatform { platform_id } => {
            match get_token_info_for_platform(platforms, platform_id.as_str()) {
                Ok((key, name)) => {
                    let label = concat2(name.as_str(), " token");
                    Ok(remove_task(key.as_str(), label.as_str()))
                },
                Err(e) => Err(e),
            }
        },
    }
}

/// Whether jpg6 cookies given as name and value pairs hold a session: both
/// `goonbox_session` and `XSRF-TOKEN`.
pub open spec fn jpg6_cookies_complete(cookies: Seq<(Seq<char>, Seq<char>)>) -> bool {
    &&& exists|i: int| 0 <= i < cookies.len() && #[trigger] cookies[i].0 == "goonbox_session"@
    &&& exists|i: int| 0 <= i < cookies.len() && #[trigger] cookies[i].0 == "XSRF-TOKEN"@
}

/// The error for jpg6 cookies that lack a session cookie.
pub open spec fn jpg6_cookies_message() -> Seq<char> {
    "Cookies JSON must contain both 'goonbox_session' and 'XSRF-TOKEN' keys.\nExpected format: {\"goonbox_session\":\"value\",\"XSRF-TOKEN\":\"value\"}"@
}

fn has_cookie(cookies: &Vec<(String, String)>, name: &str) -> (b: bool)
    ensures
        b == exists|i: int| 0 <= i < cookies@.len() && #[trigger] cookies@[i].0@ == name@,
{
    let mut i: usize = 0;
    while i < cookies.len()
        invariant
            i <= cookies@.len(),
            forall|j: int| 0 <= j < i ==> cookies@[j].0@ != name@,
        decreases cookies@.len() - i,
    {
        if crate::strings::str_eq(cookies[i].0.as_str(), name) {
            return true;
        }
        i = i + 1;
    }
    false
}

/// Checks jpg6 session cookies before they are saved: both `goonbox_session` and
/// `XSRF-TOKEN` must be given.
pub fn check_jpg6_cookies(cookies: &Vec<(String, String)>) -> (r: Result<(), String>)
    ensures
        r is Ok <==> jpg6_cookies_complete(cookies@.map_values(|c: (String, String)| (c.0@, c.1@))),
        r matches Err(m) ==> m@ == jpg6_cookies_message(),
{
    let ghost v = cookies@.map_values(|c: (String, String)| (c.0@, c.1@));
    let a = has_cookie(cookies, "goonbox_session");
    let b = has_cookie(cookies, "XSRF-TOKEN");
    proof {
        if a {
            let i = choose|i: int| 0 <= i < cookies@.len() && #[trigger] cookies@[i].0@ == "goonbox_session"@;
            assert(v[i].0 == "goonbox_session"@);
        }
        if b {
            let i = choose|i: int| 0 <= i < cookies@.len() && #[trigger] cookies@[i].0@ == "XSRF-TOKEN"@;
            assert(v[i].0 == "XSRF-TOKEN"@);
        }
        if jpg6_cookies_complete(v) {
            let i = choose|i: int| 0 <= i < v.len() && #[trigger] v[i].0 == "goonbox_session"@;
            assert(cookies@[i].0@ == "goonbox_session"@);
            let k = choose|i: int| 0 <= i < v.len() && #[trigger] v[i].0 == "XSRF-TOKEN"@;
            assert(cookies@[k].0@ == "XSRF-TOKEN"@);
        }
    }
    if a && b {
        Ok(())
    } else {
        Err("Cookies JSON must contain both 'goonbox_session' and 'XSRF-TOKEN' keys.\nExpected format: {\"goonbox_session\":\"value\",\"XSRF-TOKEN\":\"value\"}".to_owned())
    }
}

} // verus!
