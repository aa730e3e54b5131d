use vstd::prelude::*;
use crate::platform::{platform_index, PlatformConfig};
use crate::stream::encoding::VideoEncoding;
use crate::strings::{concat2, concat3, svec};
use crate::text::{chars_of, string_from_chars};
use crate::unicode::{to_lowercase, unicode_lower};
use crate::utils::{monitor_parts, split_monitor_reference};

verus! {

/// The uploaders the recorder knows.
#[derive(Clone, Copy, Debug, PartialEq, Eq, Structural)]
pub enum UploaderType {
    Bunkr,
    GoFile,
    Fileditch,
    Filester,
    Jpg6,
}

/// How an uploader stands at startup.
#[derive(Clone, Debug)]
pub enum UploaderStatus {
    Enabled(String),
    UserDisabled,
    ConfigError(String),
}

/// Whether the startup report counts an uploader as disabled: its name, in lower
/// case, is one of the disabled names as written.
pub open spec fn listed_disabled(name: Seq<char>, disabled: Seq<Seq<char>>) -> bool {
    exists|j: int| 0 <= j < disabled.len() && #[trigger] disabled[j] == unicode_lower(name)
}

/// The startup status of an uploader: disabled by the user; else available or not
/// by its token (given as `has_token`): Fileditch needs none, Filester works
/// without one under public limits, the others need one.
pub open spec fn status_ok(
    t: UploaderType,
    name: Seq<char>,
    disabled: Seq<Seq<char>>,
    has_token: bool,
    s: UploaderStatus,
) -> bool {
    if listed_disabled(name, disabled) {
        s is UserDisabled
    } else {
        match t {
            UploaderType::Fileditch => s matches UploaderStatus::Enabled(n) && n@ == "always available"@,
            UploaderType::Filester => s matches UploaderStatus::Enabled(n) && n@ == if has_token {
                "token configured"@
            } else {
                "no token, public limits"@
            },
            _ => if has_token {
                s matches UploaderStatus::Enabled(n) && n@ == "token configured"@
            } else {
                s matches UploaderStatus::ConfigError(n) && n@ == "token required"@
            },
        }
    }
}

/// Decides how an uploader stands at startup.
pub fn get_uploader_status(
    uploader_type: UploaderType,
    name: &str,
    disabled: &Vec<String>,
    has_token: bool,
) -> (s: UploaderStatus)
    ensures
        status_ok(uploader_type, name@, svec(disabled@), has_token, s),
{
    let lower = to_lowercase(name);
    if crate::strings::contains_string(disabled, lower.as_str()) {
        return UploaderStatus::UserDisabled;
    }
    match uploader_type {
        UploaderType::Fileditch => UploaderStatus::Enabled("always available".to_owned()),
        UploaderType::Filester => if has_token {
            UploaderStatus::Enabled("token configured".to_owned())
        } else {
            UploaderStatus::Enabled("no token, public limits".to_owned())
        },
        _ => if has_token {
            UploaderStatus::Enabled("token configured".to_owned())
        } else {
            UploaderStatus::ConfigError("token required".to_owned())
        },
    }
}

/// What the startup report says of a platform's token, given whether a stored
/// token was found.
pub open spec fn token_note(p: PlatformConfig, token_found: bool) -> Seq<char> {
    match p.token_name {
        Some(_) => if token_found {
            "token configured"@
        } else {
            "no token, may not work"@
        },
        None => "no token required"@,
    }
}

/// Says what the startup report shows of a platform's token.
pub fn platform_token_note(p: &PlatformConfig, token_found: bool) -> (s: &'static str)
    ensures
        s@ == token_note(*p, token_found),
{
    match &p.token_name {
        Some(_) => if token_found {
            "token configured"
        } else {
            "no token, may not work"
        },
        None => "no token required",
    }
}

/// How a monitored user stands at startup.
#[derive(Clone, Copy, Debug, PartialEq, Eq, Structural)]
pub enum MonitorCheck {
    Ready,
    Malformed,
    UnknownPlatform,
}

/// A monitor reference is malformed, names a platform that is not installed, or
/// is ready.
pub open spec fn monitor_check(monitor: Seq<char>, platforms: Seq<PlatformConfig>) -> MonitorCheck {
    match monitor_parts(monitor) {
        Err(_) => MonitorCheck::Malformed,
        Ok((p, _)) => if platform_index(platforms, p) < 0 {
            MonitorCheck::UnknownPlatform
        } else {
            MonitorCheck::Ready
        },
    }
}

/// Checks a monitored user for the startup report.
pub fn check_monitor(monitor: &str, platforms: &[PlatformConfig]) -> (c: MonitorCheck)
    ensures
        c == monitor_check(monitor@, platforms@),
{
    match split_monitor_reference(monitor) {
        Err(_) => MonitorCheck::Malformed,
        Ok((platform_id, _)) => match PlatformConfig::find_by_id(platforms, platform_id.as_str()) {
            Some(_) => MonitorCheck::Ready,
            None => MonitorCheck::UnknownPlatform,
        },
    }
}

/// The note of the encoder line of the startup report.
pub fn encoder_note(encoding: &VideoEncoding, hardware: bool) -> (s: String)
    ensures
        s@ == (if hardware {
            "hardware acceleration, "@
        } else {
            "no hardware encoder found, using software, "@
        }) + crate::stream::encoding::encoding_text(*encoding),
{
    let d = encoding.describe();
    if hardware {
        concat2("hardware acceleration, ", d.as_str())
    } else {
        concat2("no hardware encoder found, using software, ", d.as_str())
    }
}

/// The error that stops startup when the configuration is invalid.
pub fn config_failure_message(error: &str) -> (s: String)
    ensures
        s@ == "Configuration validation failed: "@ + error@
            + ". Please fix the configuration and try again."@,
{
    concat3("Configuration validation failed: ", error, ". Please fix the configuration and try again.")
}

/// The uploaders the recorder knows, with their names, in the order they are tried.
pub fn get_all_uploader_types_and_names() -> (v: Vec<(UploaderType, String)>)
    ensures
        v@.len() == 5,
        v@[0].0 == UploaderType::Bunkr && v@[0].1@ == "bunkr"@,
        v@[1].0 == UploaderType::GoFile && v@[1].1@ == "gofile"@,
        v@[2].0 == UploaderType::Fileditch && v@[2].1@ == "fileditch"@,
        v@[3].0 == UploaderType::Filester && v@[3].1@ == "filester"@,
        v@[4].0 == UploaderType::Jpg6 && v@[4].1@ == "jpg6"@,
{
    let mut v: Vec<(UploaderType, String)> = Vec::new();
    v.push((UploaderType::Bunkr, "bunkr".to_owned()));
    v.push((UploaderType::GoFile, "gofile".to_owned()));
    v.push((UploaderType::Fileditch, "fileditch".to_owned()));
    v.push((UploaderType::Filester, "filester".to_owned()));
    v.push((UploaderType::Jpg6, "jpg6".to_owned()));
    v
}

/// The mark a line of the startup report carries.
#[derive(Clone, Copy, Debug, PartialEq, Eq, Structural)]
pub enum StartupMark {
    Passed,
    Failed,
    Warn,
    Dot,
    Plain,
}

/// A line of the startup report: a mark, a name, and a note (empty for plain text).
#[derive(Clone, Debug)]
pub struct StartupItem {
    pub mark: StartupMark,
    pub name: String,
    pub note: String,
}

/// A section of the startup report: its title and lines.
#[derive(Clone, Debug)]
pub struct StartupSection {
    pub title: String,
    pub items: Vec<StartupItem>,
}

/// The widest name among marked lines of `items`.
pub open spec fn items_name_width(items: Seq<StartupItem>) -> nat
    decreases items.len(),
{
    if items.len() == 0 {
        0
    } else {
        let rest = items_name_width(items.drop_last());
        let it = items.last();
        if it.mark != StartupMark::Plain && it.name@.len() > rest {
            it.name@.len()
        } else {
            rest
        }
    }
}

/// The widest name among marked lines of all sections.
pub open spec fn name_width(sections: Seq<StartupSection>) -> nat
    decreases sections.len(),
{
    if sections.len() == 0 {
        0
    } else {
        let rest = name_width(sections.drop_last());
        let w = items_name_width(sections.last().items@);
        if w > rest {
            w
        } else {
            rest
        }
    }
}

/// How wide a line is when names are padded to `w`: a plain line is its text after
/// two spaces; a marked line is the mark, a space, the padded name, two spaces and
/// the note.
pub open spec fn item_width(it: StartupItem, w: nat) -> nat {
    if it.mark == StartupMark::Plain {
        2 + it.name@.len()
    } else {
        4 + w + it.note@.len()
    }
}

/// The widest line among `items`.
pub open spec fn items_line_width(items: Seq<StartupItem>, w: nat) -> nat
    decreases items.len(),
{
    if items.len() == 0 {
        0
    } else {
        let rest = items_line_width(items.drop_last(), w);
        let x = item_width(items.last(), w);
        if x > rest {
            x
        } else {
            rest
        }
    }
}

/// The widest line of all sections: the length of the rule under each title.
pub open spec fn line_width(sections: Seq<StartupSection>, w: nat) -> nat
    decreases sections.len(),
{
    if sections.len() == 0 {
        0
    } else {
        let rest = line_width(sections.drop_last(), w);
        let x = items_line_width(sections.last().items@, w);
        if x > rest {
            x
        } else {
            rest
        }
    }
}

/// Every line of the report, laid out with names padded to `w`, has a width that
/// a `usize` holds.
pub open spec fn report_lines_fit(sections: Seq<StartupSection>, w: nat) -> bool {
    forall|i: int, j: int|
        0 <= i < sections.len() && 0 <= j < sections[i].items@.len() ==> (#[trigger] sections[i].items@[j]).name@.len()
            + 2 <= usize::MAX && w + sections[i].items@[j].note@.len() + 4 <= usize::MAX
}

/// The name width of the report: names of marked lines are padded to it.
pub fn startup_name_width(sections: &Vec<StartupSection>) -> (w: usize)
    ensures
        w == name_width(sections@),
{
    let mut w: usize = 0;
    let mut i: usize = 0;
    while i < sections.len()
        invariant
            i <= sections@.len(),
            w == name_width(sections@.take(i as int)),
        decreases sections@.len() - i,
    {
        let items = &sections[i].items;
        let mut iw: usize = 0;
        let mut j: usize = 0;
        while j < items.len()
            invariant
                j <= items@.len(),
                items@ == sections@[i as int].items@,
                i < sections@.len(),
                iw == items_name_width(items@.take(j as int)),
            decreases items@.len() - j,
        {
            let it = &items[j];
            assert(items@.take(j + 1).drop_last() =~= items@.take(j as int));
            assert(sections@[i as int].items@[j as int] == items@[j as int]);
            let n = it.name.as_str().unicode_len();
            if it.mark != StartupMark::Plain && n > iw {
                iw = n;
            }
            j = j + 1;
        }
        assert(items@.take(j as int) =~= items@);
        assert(sections@.take(i + 1).drop_last() =~= sections@.take(i as int));
        if iw > w {
            w = iw;
        }
        i = i + 1;
    }
    assert(sections@.take(i as int) =~= sections@);
    w
}

/// The width of the rule under each title: the widest line of the report.
pub fn startup_line_width(sections: &Vec<StartupSection>, w: usize) -> (l: usize)
    requires
        report_lines_fit(sections@, w as nat),
    ensures
        l == line_width(sections@, w as nat),
{
    let mut l: usize = 0;
    let mut i: usize = 0;
    while i < sections.len()
        invariant
            i <= sections@.len(),
            report_lines_fit(sections@, w as nat),
            l == line_width(sections@.take(i as int), w as nat),
        decreases sections@.len() - i,
    {
        let items = &sections[i].items;
        let mut il: usize = 0;
        let mut j: usize = 0;
        while j < items.len()
            invariant
                j <= items@.len(),
                items@ == sections@[i as int].items@,
                i < sections@.len(),
                report_lines_fit(sections@, w as nat),
                il == items_line_width(items@.take(j as int), w as nat),
            decreases items@.len() - j,
        {
            let it = &items[j];
            assert(items@.take(j + 1).drop_last() =~= items@.take(j as int));
            assert(sections@[i as int].items@[j as int] == items@[j as int]);
            let x = if it.mark == StartupMark::Plain {
                2 + it.name.as_str().unicode_len()
            } else {
                4 + w + it.note.as_str().unicode_len()
            };
            if x > il {
                il = x;
            }
            j = j + 1;
        }
        assert(items@.take(j as int) =~= items@);
        assert(sections@.take(i + 1).drop_last() =~= sections@.take(i as int));
        if il > l {
            l = il;
        }
        i = i + 1;
    }
    assert(sections@.take(i as int) =~= sections@);
    l
}

/// `s` padded with spaces on the right to `width` characters (as `{:width$}`
/// pads text).
pub fn pad_name(s: &str, width: usize) -> (r: String)
    ensures
        r@ == if s@.len() < width {
            s@ + Seq::new((width - s@.len()) as nat, |i: int| ' ')
        } else {
            s@
        },
{
    let mut c = chars_of(s);
    let ghost orig = c@;
    let n = c.len();
    let mut k = n;
    while k < width
        invariant
            n == orig.len(),
            n <= k <= if n < width { width } else { n },
            c@ == orig + Seq::new((k - n) as nat, |i: int| ' '),
        decreases width - k,
    {
        c.push(' ');
        assert(c@ =~= orig + Seq::new((k + 1 - n) as nat, |i: int| ' '));
        k = k + 1;
    }
    if n >= width {
        assert(c@ =~= orig);
    }
    string_from_chars(c.as_slice())
}

} // verus!
