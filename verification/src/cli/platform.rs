use vstd::prelude::*;
use crate::config::types::opt_text;
use crate::platform::PlatformConfig;
use crate::strings::{concat2, concat3, concat5, u64_string};
use crate::text::dec;
use crate::unicode::{to_uppercase, unicode_upper};
use crate::utils::{env_readable, env_value, get_token_by_name_checked};

verus! {

/// The `platform` subcommands.
#[derive(Clone, Debug)]
pub enum PlatformAction {
    List,
    Install { url: String },
    Debug { monitor: String, token: Option<String>, show_response: bool },
    Search { query: Option<String>, page: Option<u32> },
    Update { platform_id: Option<String>, all: bool },
    Remove { platform_id: String },
}

/// The line that lists an installed platform: id, name, version, number of steps,
/// whether its token is there (given as `token_found`), and whether it can be
/// updated from a saved source.
pub open spec fn summary_line(p: PlatformConfig, token_found: bool) -> Seq<char> {
    let token_status = match p.token_name {
        Some(_) => if token_found {
            "token configured"@
        } else {
            "no token"@
        },
        None => "no token required"@,
    };
    let update_status = match p.source_url {
        Some(_) => "updatable"@,
        None => "no source URL"@,
    };
    "  "@ + p.id@ + " ("@ + p.name@ + ") v"@ + p.version@ + " — "@ + dec(p.steps@.len()) + " steps, "@
        + token_status + ", "@ + update_status
}

/// Formats the listing line of an installed platform.
pub fn platform_summary_line(p: &PlatformConfig, token_found: bool) -> (s: String)
    ensures
        s@ == summary_line(*p, token_found),
{
    let token_status = match &p.token_name {
        Some(_) => if token_found {
            "token configured"
        } else {
            "no token"
        },
        None => "no token required",
    };
    let update_status = match &p.source_url {
        Some(_) => "updatable",
        None => "no source URL",
    };
    let steps = u64_string(p.steps.len() as u64);
    let head = concat5("  ", p.id.as_str(), " (", p.name.as_str(), ") v");
    let mid = concat5(head.as_str(), p.version.as_str(), " — ", steps.as_str(), " steps, ");
    let s = concat5(mid.as_str(), token_status, ", ", update_status, "");
    proof {
        reveal_strlit("");
    }
    assert(s@ =~= summary_line(*p, token_found));
    s
}

/// The GitHub search for platform repositories, narrowed by `query` when given.
pub open spec fn search_text(query: Option<Seq<char>>) -> Seq<char> {
    match query {
        Some(q) => q + " topic:stream-recorder-rs-platform in:name,description"@,
        None => "topic:stream-recorder-rs-platform"@,
    }
}

/// Builds the GitHub search for platform repositories.
pub fn search_query(query: Option<&str>) -> (s: String)
    ensures
        s@ == search_text(
            match query {
                Some(q) => Some(q@),
                None => None,
            },
        ),
{
    match query {
        Some(q) => concat2(q, " topic:stream-recorder-rs-platform in:name,description"),
        None => "topic:stream-recorder-rs-platform".to_owned(),
    }
}

/// What `platform update` works on.
#[derive(Clone, Debug)]
pub enum UpdateTarget {
    All,
    One(String),
}

/// Decides what `platform update` works on: every platform with `--all`, else the
/// given one; neither is an error.
pub fn update_target(platform_id: Option<String>, all: bool) -> (r: Result<UpdateTarget, String>)
    ensures
        all ==> r matches Ok(UpdateTarget::All),
        !all ==> match platform_id {
            Some(id) => r matches Ok(UpdateTarget::One(x)) && x@ == id@,
            None => r matches Err(m) && m@
                == "Specify a platform ID to update, or pass --all to update all platforms."@,
        },
{
    if all {
        Ok(UpdateTarget::All)
    } else {
        match platform_id {
            Some(id) => Ok(UpdateTarget::One(id)),
            None => Err(
                "Specify a platform ID to update, or pass --all to update all platforms.".to_owned(),
            ),
        }
    }
}

/// The token a debug run uses: the one given with `--token`; else, for a platform
/// that names a token, the stored one (the keyring's password, else the `.env`
/// entry named by the upper-cased token name); else none (empty).
pub open spec fn debug_token(
    token_override: Option<Seq<char>>,
    platform: PlatformConfig,
    keyring_password: Option<Seq<char>>,
    env_content: Option<Seq<char>>,
) -> Result<Seq<char>, Seq<char>> {
    match token_override {
        Some(t) => Ok(t),
        None => match platform.token_name {
            Some(n) => match (match keyring_password {
                Some(p) => Some(p),
                None => match env_content {
                    Some(text) => env_value(text, unicode_upper(n@)),
                    None => None,
                },
            }) {
                Some(t) => Ok(t),
                None => Err(
                    "No token found for platform '"@ + platform.id@ + "' (key: '"@ + n@
                        + "'). Provide --token or save one with 'token save-platform "@
                        + platform.id@ + " <token>'."@,
                ),
            },
            None => Ok(Seq::empty()),
        },
    }
}

/// Resolves the token of a debug run; `None` when the `.env` text holds the token
/// name with a lone quote for its value, which cannot be read.
pub fn resolve_platform_token(
    platform: &PlatformConfig,
    token_override: Option<String>,
    keyring_password: Option<String>,
    env_content: Option<&str>,
) -> (r: Option<Result<String, String>>)
    ensures
        match r {
            Some(Ok(t)) => debug_token(opt_text(token_override), *platform, opt_text(keyring_password), match env_content {
                Some(c) => Some(c@),
                None => None,
            }) == Ok::<Seq<char>, Seq<char>>(t@),
            Some(Err(m)) => debug_token(opt_text(token_override), *platform, opt_text(keyring_password), match env_content {
                Some(c) => Some(c@),
                None => None,
            }) == Err::<Seq<char>, Seq<char>>(m@),
            None => {
                &&& token_override is None
                &&& platform.token_name matches Some(n) && env_content matches Some(text)
                    && !env_readable(text@, unicode_upper(n@))
            },
        },
{
    if let Some(t) = token_override {
        return Some(Ok(t));
    }
    match &platform.token_name {
        Some(n) => match get_token_by_name_checked(n.as_str(), keyring_password, env_content) {
            None => None,
            Some(Some(t)) => Some(Ok(t)),
            Some(None) => {
                let head = concat5(
                    "No token found for platform '",
                    platform.id.as_str(),
                    "' (key: '",
                    n.as_str(),
                    "'). Provide --token or save one with 'token save-platform ",
                );
                Some(Err(concat3(head.as_str(), platform.id.as_str(), " <token>'.")))
            },
        },
        None => Some(Ok(String::new())),
    }
}

} // verus!
