use vstd::prelude::*;
use crate::config::types::opt_text;
use crate::platform::PlatformConfig;
use crate::strings::{concat3, concat5, contains_string, svec};
use crate::unicode::{to_uppercase, unicode_upper};
use crate::utils::{env_readable, env_readable_exec, env_value, get_token_by_name};

verus! {

/// The running monitors that are no longer wanted, in the order they run.
pub open spec fn stops(active: Seq<Seq<char>>, desired: Seq<Seq<char>>) -> Seq<Seq<char>>
    decreases active.len(),
{
    if active.len() == 0 {
        Seq::empty()
    } else if desired.contains(active.last()) {
        stops(active.drop_last(), desired)
    } else {
        stops(active.drop_last(), desired).push(active.last())
    }
}

/// The wanted monitors that are not running yet, in the order they are wanted, each
/// once.
pub open spec fn starts(active: Seq<Seq<char>>, desired: Seq<Seq<char>>) -> Seq<Seq<char>>
    decreases desired.len(),
{
    if desired.len() == 0 {
        Seq::empty()
    } else if active.contains(desired.last()) || desired.drop_last().contains(desired.last()) {
        starts(active, desired.drop_last())
    } else {
        starts(active, desired.drop_last()).push(desired.last())
    }
}

/// A monitor is stopped exactly when it runs and is no longer wanted.
pub proof fn lemma_stops_contains(active: Seq<Seq<char>>, desired: Seq<Seq<char>>, m: Seq<char>)
    ensures
        stops(active, desired).contains(m) <==> (active.contains(m) && !desired.contains(m)),
    decreases active.len(),
{
    if active.len() > 0 {
        let rest = active.drop_last();
        lemma_stops_contains(rest, desired, m);
        assert(active =~= rest.push(active.last()));
        if rest.contains(m) {
            let j = choose|j: int| 0 <= j < rest.len() && rest[j] == m;
            assert(active[j] == m);
        }
        if active.contains(m) && active.last() != m {
            let j = choose|j: int| 0 <= j < active.len() && active[j] == m;
            assert(rest[j] == m);
        }
        if !desired.contains(active.last()) {
            let r = stops(rest, desired);
            assert(r.push(active.last())[r.len() as int] == active.last());
            if r.push(active.last()).contains(m) && m != active.last() {
                let j = choose|j: int| 0 <= j < r.push(active.last()).len() && r.push(active.last())[j] == m;
                assert(r[j] == m);
            }
            if r.contains(m) {
                let j = choose|j: int| 0 <= j < r.len() && r[j] == m;
                assert(r.push(active.last())[j] == m);
            }
        }
    }
}

/// A monitor is started exactly when it is wanted and not running.
pub proof fn lemma_starts_contains(active: Seq<Seq<char>>, desired: Seq<Seq<char>>, m: Seq<char>)
    ensures
        starts(active, desired).contains(m) <==> (desired.contains(m) && !active.contains(m)),
    decreases desired.len(),
{
    if desired.len() > 0 {
        let rest = desired.drop_last();
        let x = desired.last();
        lemma_starts_contains(active, rest, m);
        if rest.contains(m) {
            let j = choose|j: int| 0 <= j < rest.len() && rest[j] == m;
            assert(desired[j] == m);
        }
        if desired.contains(m) && x != m {
            let j = choose|j: int| 0 <= j < desired.len() && desired[j] == m;
            assert(rest[j] == m);
        }
        if !(active.contains(x) || rest.contains(x)) {
            let r = starts(active, rest);
            assert(r.push(x)[r.len() as int] == x);
            if r.push(x).contains(m) && m != x {
                let j = choose|j: int| 0 <= j < r.push(x).len() && r.push(x)[j] == m;
                assert(r[j] == m);
            }
            if r.contains(m) {
                let j = choose|j: int| 0 <= j < r.len() && r[j] == m;
                assert(r.push(x)[j] == m);
            }
        }
    }
}

/// Reconciling makes the running monitors exactly the wanted ones, once every
/// start succeeds: a monitor runs afterwards (it ran and was not stopped, or it
/// was started) if and only if it is wanted; and none is both stopped and started.
pub proof fn lemma_reconcile_reaches_desired(active: Seq<Seq<char>>, desired: Seq<Seq<char>>)
    ensures
        forall|m: Seq<char>|
            #![trigger desired.contains(m)]
            #![trigger active.contains(m)]
            ((active.contains(m) && !stops(active, desired).contains(m)) || starts(active, desired).contains(m))
                <==> desired.contains(m),
        forall|m: Seq<char>|
            !(#[trigger] stops(active, desired).contains(m) && starts(active, desired).contains(m)),
{
    assert forall|m: Seq<char>|
        #![trigger desired.contains(m)]
        #![trigger active.contains(m)]
        ((active.contains(m) && !stops(active, desired).contains(m)) || starts(active, desired).contains(m))
            <==> desired.contains(m) by {
        lemma_stops_contains(active, desired, m);
        lemma_starts_contains(active, desired, m);
    }
    assert forall|m: Seq<char>|
        !(#[trigger] stops(active, desired).contains(m) && starts(active, desired).contains(m)) by {
        lemma_stops_contains(active, desired, m);
        lemma_starts_contains(active, desired, m);
    }
}

/// The monitors to stop when the wanted list becomes `desired`.
pub fn monitors_to_stop(active: &Vec<String>, desired: &Vec<String>) -> (v: Vec<String>)
    ensures
        svec(v@) == stops(svec(active@), svec(desired@)),
{
    let ghost a = svec(active@);
    let mut out: Vec<String> = Vec::new();
    let mut i: usize = 0;
    while i < active.len()
        invariant
            i <= active@.len(),
            a == svec(active@),
            svec(out@) == stops(a.take(i as int), svec(desired@)),
        decreases active@.len() - i,
    {
        assert(a.take(i + 1).drop_last() =~= a.take(i as int));
        assert(a.take(i + 1).last() == active@[i as int]@);
        if !contains_string(desired, active[i].as_str()) {
            let ghost before = svec(out@);
            out.push(active[i].clone());
            assert(svec(out@) =~= before.push(active@[i as int]@));
        }
        i = i + 1;
    }
    assert(a.take(i as int) =~= a);
    out
}

/// The monitors to start when the wanted list becomes `desired`.
pub fn monitors_to_start(active: &Vec<String>, desired: &Vec<String>) -> (v: Vec<String>)
    ensures
        svec(v@) == starts(svec(active@), svec(desired@)),
{
    let ghost d = svec(desired@);
    let mut seen: Vec<String> = Vec::new();
    let mut out: Vec<String> = Vec::new();
    let mut i: usize = 0;
    while i < desired.len()
        invariant
            i <= desired@.len(),
            d == svec(desired@),
            svec(seen@) == d.take(i as int),
            svec(out@) == starts(svec(active@), d.take(i as int)),
        decreases desired@.len() - i,
    {
        assert(d.take(i + 1).drop_last() =~= d.take(i as int));
        assert(d.take(i + 1).last() == desired@[i as int]@);
        let m = desired[i].as_str();
        if !contains_string(active, m) && !contains_string(&seen, m) {
            let ghost before = svec(out@);
            out.push(desired[i].clone());
            assert(svec(out@) =~= before.push(desired@[i as int]@));
        }
        let ghost before_seen = svec(seen@);
        seen.push(desired[i].clone());
        assert(svec(seen@) =~= before_seen.push(desired@[i as int]@));
        assert(d.take(i + 1) =~= d.take(i as int).push(d[i as int]));
        i = i + 1;
    }
    assert(d.take(i as int) =~= d);
    out
}

/// The message when a platform's token cannot be found.
pub open spec fn missing_token(id: Seq<char>, name: Seq<char>) -> Seq<char> {
    "No token found for platform '"@ + id + "' (key: '"@ + name
        + "'). Save it with 'token save-platform "@ + id + " <token>'."@
}

/// The token a monitor uses: the one given on the command line; else, for a platform
/// that names a token, the stored one (the keyring's password, else the `.env`
/// entry named by the upper-cased token name); else none (empty).
pub open spec fn token_for(
    cli_token: Option<Seq<char>>,
    platform: PlatformConfig,
    keyring_password: Option<Seq<char>>,
    env_content: Option<Seq<char>>,
) -> Result<Seq<char>, Seq<char>> {
    match cli_token {
        Some(t) => Ok(t),
        None => match platform.token_name {
            Some(n) => match (match keyring_password {
                Some(p) => Some(p),
                None => match env_content {
                    Some(text) => env_value(text, unicode_upper(n@)),
                    None => None,
                },
            }) {
                Some(t) => Ok(t),
                None => Err(missing_token(platform.id@, n@)),
            },
            None => Ok(Seq::empty()),
        },
    }
}

/// Resolves the token a monitor of `platform` uses.
pub fn resolve_token(
    cli_token: Option<String>,
    platform: &PlatformConfig,
    keyring_password: Option<String>,
    env_content: Option<&str>,
) -> (r: Result<String, String>)
    requires
        cli_token is None ==> (platform.token_name matches Some(n) ==> (env_content matches Some(
            text,
        ) ==> env_readable(text@, unicode_upper(n@)))),
    ensures
        match r {
            Ok(t) => token_for(opt_text(cli_token), *platform, opt_text(keyring_password), match env_content {
                Some(c) => Some(c@),
                None => None,
            }) == Ok::<Seq<char>, Seq<char>>(t@),
            Err(m) => token_for(opt_text(cli_token), *platform, opt_text(keyring_password), match env_content {
                Some(c) => Some(c@),
                None => None,
            }) == Err::<Seq<char>, Seq<char>>(m@),
        },
{
    match cli_token {
        Some(t) => Ok(t),
        None => match &platform.token_name {
            Some(n) => match get_token_by_name(n.as_str(), keyring_password, env_content) {
                Some(t) => Ok(t),
                None => {
                    let head = concat5(
                        "No token found for platform '",
                        platform.id.as_str(),
                        "' (key: '",
                        n.as_str(),
                        "'). Save it with 'token save-platform ",
                    );
                    Err(concat3(head.as_str(), platform.id.as_str(), " <token>'."))
                },
            },
            None => Ok(String::new()),
        },
    }
}


/// Resolves a monitor's token where the `.env` text may hold the token name with a
/// lone quote for its value, which cannot be read: then `None`.
pub fn resolve_token_checked(
    cli_token: Option<String>,
    platform: &PlatformConfig,
    keyring_password: Option<String>,
    env_content: Option<&str>,
) -> (r: Option<Result<String, String>>)
    ensures
        match r {
            Some(Ok(t)) => token_for(opt_text(cli_token), *platform, opt_text(keyring_password), match env_content {
                Some(c) => Some(c@),
                None => None,
            }) == Ok::<Seq<char>, Seq<char>>(t@),
            Some(Err(m)) => token_for(opt_text(cli_token), *platform, opt_text(keyring_password), match env_content {
                Some(c) => Some(c@),
                None => None,
            }) == Err::<Seq<char>, Seq<char>>(m@),
            None => {
                &&& cli_token is None
                &&& platform.token_name matches Some(n) && env_content matches Some(text)
                    && !env_readable(text@, unicode_upper(n@))
            },
        },
{
    if cli_token.is_none() {
        if let Some(n) = &platform.token_name {
            if let Some(text) = env_content {
                let key = to_uppercase(n.as_str());
                if !env_readable_exec(text, key.as_str()) {
                    return None;
                }
            }
        }
    }
    Some(resolve_token(cli_token, platform, keyring_password, env_content))
}

} // verus!
