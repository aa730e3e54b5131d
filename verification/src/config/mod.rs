use vstd::prelude::*;
use crate::config::naming::{title_case, title_case_identifier};
use crate::config::types::duration::{
    duration_parse, opt_nanos, optional_duration_parse, optional_duration_text, Duration,
    OptionalDuration,
};
use crate::config::types::file_size::{opt_bytes, size_parse, FileSize};
use crate::config::types::list::{list_parse, list_text, StringList};
use crate::config::types::number::{optional_u32_parse, optional_u32_text, u32_parse, OptionalU32, U32};
use crate::config::types::text::{
    opt_str, optional_text_parse, optional_text_shown, text_parse, OptionalText, Text,
};
use crate::config::types::{opt_list, opt_text, ConfigValidator};
use crate::config::validators::{
    agrees, optional_bitrate_check, optional_regex_list_check, positive_check,
    positive_duration_check, thumbnail_pair_check, url_check, video_quality_check, FfmpegBitrate,
    PositiveDuration, PositiveU32, RegexList, ThumbnailGrid, ThumbnailSize, Url, VideoQuality,
};
use crate::strings::{concat2, concat4, svec};
use crate::text::{chars_of, dec, eq_lit};
use crate::types::duration::{display, DurationValue};
use crate::types::file_size::{size_text, FileSize as FileSizeValue};

pub mod laws;
pub mod listing;
pub mod markdown;
pub mod naming;
pub mod types;
pub mod validators;

verus! {

/// Whether a setting holds a list.
pub open spec fn key_is_list(k: ConfigKey) -> bool {
    k == ConfigKey::monitors || k == ConfigKey::title_clean_regex || k == ConfigKey::disabled_uploaders
}

/// The groups that settings are listed under.
#[allow(non_camel_case_types)]
#[derive(Clone, Copy, Debug, PartialEq, Eq, Structural)]
pub enum ConfigCategory {
    monitoring,
    video,
    post_processing,
    uploads,
    thumbnails,
    notifications,
    storage,
}

/// The settings, in the order they are listed.
#[allow(non_camel_case_types)]
#[derive(Clone, Copy, Debug, PartialEq, Eq, Structural)]
pub enum ConfigKey {
    monitors,
    min_stream_duration,
    stream_reconnect_delay,
    stream_metadata_refresh_interval,
    step_delay,
    fetch_interval,
    video_quality,
    video_bitrate,
    max_bitrate,
    max_fps,
    title_clean_regex,
    max_upload_retries,
    disabled_uploaders,
    thumbnail_size,
    thumbnail_grid,
    discord_webhook_url,
    upload_complete_message_template,
    output_directory,
    min_free_space,
    retention_max_age,
    retention_keep_latest_per_user,
}

/// The name of a category.
pub open spec fn category_name(c: ConfigCategory) -> Seq<char> {
    match c {
        ConfigCategory::monitoring => "monitoring"@,
        ConfigCategory::video => "video"@,
        ConfigCategory::post_processing => "post_processing"@,
        ConfigCategory::uploads => "uploads"@,
        ConfigCategory::thumbnails => "thumbnails"@,
        ConfigCategory::notifications => "notifications"@,
        ConfigCategory::storage => "storage"@,
    }
}

/// The name of a setting, as typed on the command line and stored in the file.
pub open spec fn key_name(k: ConfigKey) -> Seq<char> {
    match k {
        ConfigKey::monitors => "monitors"@,
        ConfigKey::min_stream_duration => "min_stream_duration"@,
        ConfigKey::stream_reconnect_delay => "stream_reconnect_delay"@,
        ConfigKey::stream_metadata_refresh_interval => "stream_metadata_refresh_interval"@,
        ConfigKey::step_delay => "step_delay"@,
        ConfigKey::fetch_interval => "fetch_interval"@,
        ConfigKey::video_quality => "video_quality"@,
        ConfigKey::video_bitrate => "video_bitrate"@,
        ConfigKey::max_bitrate => "max_bitrate"@,
        ConfigKey::max_fps => "max_fps"@,
        ConfigKey::title_clean_regex => "title_clean_regex"@,
        ConfigKey::max_upload_retries => "max_upload_retries"@,
        ConfigKey::disabled_uploaders => "disabled_uploaders"@,
        ConfigKey::thumbnail_size => "thumbnail_size"@,
        ConfigKey::thumbnail_grid => "thumbnail_grid"@,
        ConfigKey::discord_webhook_url => "discord_webhook_url"@,
        ConfigKey::upload_complete_message_template => "upload_complete_message_template"@,
        ConfigKey::output_directory => "output_directory"@,
        ConfigKey::min_free_space => "min_free_space"@,
        ConfigKey::retention_max_age => "retention_max_age"@,
        ConfigKey::retention_keep_latest_per_user => "retention_keep_latest_per_user"@,
    }
}

/// The setting that `s` names, if any.
pub open spec fn key_named(s: Seq<char>) -> Option<ConfigKey> {
    if s == "monitors"@ {
        Some(ConfigKey::monitors)
    } else if s == "min_stream_duration"@ {
        Some(ConfigKey::min_stream_duration)
    } else if s == "stream_reconnect_delay"@ {
        Some(ConfigKey::stream_reconnect_delay)
    } else if s == "stream_metadata_refresh_interval"@ {
        Some(ConfigKey::stream_metadata_refresh_interval)
    } else if s == "step_delay"@ {
        Some(ConfigKey::step_delay)
    } else if s == "fetch_interval"@ {
        Some(ConfigKey::fetch_interval)
    } else if s == "video_quality"@ {
        Some(ConfigKey::video_quality)
    } else if s == "video_bitrate"@ {
        Some(ConfigKey::video_bitrate)
    } else if s == "max_bitrate"@ {
        Some(ConfigKey::max_bitrate)
    } else if s == "max_fps"@ {
        Some(ConfigKey::max_fps)
    } else if s == "title_clean_regex"@ {
        Some(ConfigKey::title_clean_regex)
    } else if s == "max_upload_retries"@ {
        Some(ConfigKey::max_upload_retries)
    } else if s == "disabled_uploaders"@ {
        Some(ConfigKey::disabled_uploaders)
    } else if s == "thumbnail_size"@ {
        Some(ConfigKey::thumbnail_size)
    } else if s == "thumbnail_grid"@ {
        Some(ConfigKey::thumbnail_grid)
    } else if s == "discord_webhook_url"@ {
        Some(ConfigKey::discord_webhook_url)
    } else if s == "upload_complete_message_template"@ {
        Some(ConfigKey::upload_complete_message_template)
    } else if s == "output_directory"@ {
        Some(ConfigKey::output_directory)
    } else if s == "min_free_space"@ {
        Some(ConfigKey::min_free_space)
    } else if s == "retention_max_age"@ {
        Some(ConfigKey::retention_max_age)
    } else if s == "retention_keep_latest_per_user"@ {
        Some(ConfigKey::retention_keep_latest_per_user)
    } else {
        None
    }
}

/// Every category, in order.
pub open spec fn all_categories() -> Seq<ConfigCategory> {
    seq![ConfigCategory::monitoring, ConfigCategory::video, ConfigCategory::post_processing, ConfigCategory::uploads, ConfigCategory::thumbnails, ConfigCategory::notifications, ConfigCategory::storage]
}

/// Every setting, in order.
pub open spec fn all_keys() -> Seq<ConfigKey> {
    seq![
        ConfigKey::monitors,
        ConfigKey::min_stream_duration,
        ConfigKey::stream_reconnect_delay,
        ConfigKey::stream_metadata_refresh_interval,
        ConfigKey::step_delay,
        ConfigKey::fetch_interval,
        ConfigKey::video_quality,
        ConfigKey::video_bitrate,
        ConfigKey::max_bitrate,
        ConfigKey::max_fps,
        ConfigKey::title_clean_regex,
        ConfigKey::max_upload_retries,
        ConfigKey::disabled_uploaders,
        ConfigKey::thumbnail_size,
        ConfigKey::thumbnail_grid,
        ConfigKey::discord_webhook_url,
        ConfigKey::upload_complete_message_template,
        ConfigKey::output_directory,
        ConfigKey::min_free_space,
        ConfigKey::retention_max_age,
        ConfigKey::retention_keep_latest_per_user,
    ]
}

/// The settings of a category, in order.
pub open spec fn category_keys(c: ConfigCategory) -> Seq<ConfigKey> {
    match c {
        ConfigCategory::monitoring => seq![ConfigKey::monitors, ConfigKey::min_stream_duration, ConfigKey::stream_reconnect_delay, ConfigKey::stream_metadata_refresh_interval, ConfigKey::step_delay, ConfigKey::fetch_interval],
        ConfigCategory::video => seq![ConfigKey::video_quality, ConfigKey::video_bitrate, ConfigKey::max_bitrate, ConfigKey::max_fps],
        ConfigCategory::post_processing => seq![ConfigKey::title_clean_regex],
        ConfigCategory::uploads => seq![ConfigKey::max_upload_retries, ConfigKey::disabled_uploaders],
        ConfigCategory::thumbnails => seq![ConfigKey::thumbnail_size, ConfigKey::thumbnail_grid],
        ConfigCategory::notifications => seq![ConfigKey::discord_webhook_url, ConfigKey::upload_complete_message_template],
        ConfigCategory::storage => seq![ConfigKey::output_directory, ConfigKey::min_free_space, ConfigKey::retention_max_age, ConfigKey::retention_keep_latest_per_user],
    }
}

/// The category a setting belongs to.
pub open spec fn key_category(k: ConfigKey) -> ConfigCategory {
    match k {
        ConfigKey::monitors => ConfigCategory::monitoring,
        ConfigKey::min_stream_duration => ConfigCategory::monitoring,
        ConfigKey::stream_reconnect_delay => ConfigCategory::monitoring,
        ConfigKey::stream_metadata_refresh_interval => ConfigCategory::monitoring,
        ConfigKey::step_delay => ConfigCategory::monitoring,
        ConfigKey::fetch_interval => ConfigCategory::monitoring,
        ConfigKey::video_quality => ConfigCategory::video,
        ConfigKey::video_bitrate => ConfigCategory::video,
        ConfigKey::max_bitrate => ConfigCategory::video,
        ConfigKey::max_fps => ConfigCategory::video,
        ConfigKey::title_clean_regex => ConfigCategory::post_processing,
        ConfigKey::max_upload_retries => ConfigCategory::uploads,
        ConfigKey::disabled_uploaders => ConfigCategory::uploads,
        ConfigKey::thumbnail_size => ConfigCategory::thumbnails,
        ConfigKey::thumbnail_grid => ConfigCategory::thumbnails,
        ConfigKey::discord_webhook_url => ConfigCategory::notifications,
        ConfigKey::upload_complete_message_template => ConfigCategory::notifications,
        ConfigKey::output_directory => ConfigCategory::storage,
        ConfigKey::min_free_space => ConfigCategory::storage,
        ConfigKey::retention_max_age => ConfigCategory::storage,
        ConfigKey::retention_keep_latest_per_user => ConfigCategory::storage,
    }
}

impl ConfigCategory {
    pub fn as_str(&self) -> (s: &str)
        ensures
            s@ == category_name(*self),
    {
        match self {
            ConfigCategory::monitoring => "monitoring",
            ConfigCategory::video => "video",
            ConfigCategory::post_processing => "post_processing",
            ConfigCategory::uploads => "uploads",
            ConfigCategory::thumbnails => "thumbnails",
            ConfigCategory::notifications => "notifications",
            ConfigCategory::storage => "storage",
        }
    }

    /// Every category, in order.
    pub fn all() -> (v: Vec<ConfigCategory>)
        ensures
            v@ == all_categories(),
    {
        let mut v: Vec<ConfigCategory> = Vec::new();
        v.push(ConfigCategory::monitoring);
        v.push(ConfigCategory::video);
        v.push(ConfigCategory::post_processing);
        v.push(ConfigCategory::uploads);
        v.push(ConfigCategory::thumbnails);
        v.push(ConfigCategory::notifications);
        v.push(ConfigCategory::storage);
        assert(v@ =~= all_categories());
        v
    }

    /// The settings of the category, in order.
    pub fn keys(&self) -> (v: Vec<ConfigKey>)
        ensures
            v@ == category_keys(*self),
    {
        let mut v: Vec<ConfigKey> = Vec::new();
        match self {
            ConfigCategory::monitoring => {
                v.push(ConfigKey::monitors);
                v.push(ConfigKey::min_stream_duration);
                v.push(ConfigKey::stream_reconnect_delay);
                v.push(ConfigKey::stream_metadata_refresh_interval);
                v.push(ConfigKey::step_delay);
                v.push(ConfigKey::fetch_interval);
            },
            ConfigCategory::video => {
                v.push(ConfigKey::video_quality);
                v.push(ConfigKey::video_bitrate);
                v.push(ConfigKey::max_bitrate);
                v.push(ConfigKey::max_fps);
            },
            ConfigCategory::post_processing => {
                v.push(ConfigKey::title_clean_regex);
            },
            ConfigCategory::uploads => {
                v.push(ConfigKey::max_upload_retries);
                v.push(ConfigKey::disabled_uploaders);
            },
            ConfigCategory::thumbnails => {
                v.push(ConfigKey::thumbnail_size);
                v.push(ConfigKey::thumbnail_grid);
            },
            ConfigCategory::notifications => {
                v.push(ConfigKey::discord_webhook_url);
                v.push(ConfigKey::upload_complete_message_template);
            },
            ConfigCategory::storage => {
                v.push(ConfigKey::output_directory);
                v.push(ConfigKey::min_free_space);
                v.push(ConfigKey::retention_max_age);
                v.push(ConfigKey::retention_keep_latest_per_user);
            },
        }
        assert(v@ =~= category_keys(*self));
        v
    }

    /// The heading shown for the category, such as `Post Processing`.
    pub fn display_name(&self) -> (s: String)
        ensures
            s@ == title_case(category_name(*self)),
    {
        title_case_identifier(self.as_str())
    }
}

impl ConfigKey {
    pub fn as_str(&self) -> (s: &str)
        ensures
            s@ == key_name(*self),
    {
        match self {
            ConfigKey::monitors => "monitors",
            ConfigKey::min_stream_duration => "min_stream_duration",
            ConfigKey::stream_reconnect_delay => "stream_reconnect_delay",
            ConfigKey::stream_metadata_refresh_interval => "stream_metadata_refresh_interval",
            ConfigKey::step_delay => "step_delay",
            ConfigKey::fetch_interval => "fetch_interval",
            ConfigKey::video_quality => "video_quality",
            ConfigKey::video_bitrate => "video_bitrate",
            ConfigKey::max_bitrate => "max_bitrate",
            ConfigKey::max_fps => "max_fps",
            ConfigKey::title_clean_regex => "title_clean_regex",
            ConfigKey::max_upload_retries => "max_upload_retries",
            ConfigKey::disabled_uploaders => "disabled_uploaders",
            ConfigKey::thumbnail_size => "thumbnail_size",
            ConfigKey::thumbnail_grid => "thumbnail_grid",
            ConfigKey::discord_webhook_url => "discord_webhook_url",
            ConfigKey::upload_complete_message_template => "upload_complete_message_template",
            ConfigKey::output_directory => "output_directory",
            ConfigKey::min_free_space => "min_free_space",
            ConfigKey::retention_max_age => "retention_max_age",
            ConfigKey::retention_keep_latest_per_user => "retention_keep_latest_per_user",
        }
    }

    /// The setting named `s`, if any.
    pub fn from_key(s: &str) -> (r: Option<ConfigKey>)
        ensures
            r == key_named(s@),
    {
        let c = chars_of(s);
        let t = c.as_slice();
        if eq_lit(t, "monitors") {
            Some(ConfigKey::monitors)
        } else if eq_lit(t, "min_stream_duration") {
            Some(ConfigKey::min_stream_duration)
        } else if eq_lit(t, "stream_reconnect_delay") {
            Some(ConfigKey::stream_reconnect_delay)
        } else if eq_lit(t, "stream_metadata_refresh_interval") {
            Some(ConfigKey::stream_metadata_refresh_interval)
        } else if eq_lit(t, "step_delay") {
            Some(ConfigKey::step_delay)
        } else if eq_lit(t, "fetch_interval") {
            Some(ConfigKey::fetch_interval)
        } else if eq_lit(t, "video_quality") {
            Some(ConfigKey::video_quality)
        } else if eq_lit(t, "video_bitrate") {
            Some(ConfigKey::video_bitrate)
        } else if eq_lit(t, "max_bitrate") {
            Some(ConfigKey::max_bitrate)
        } else if eq_lit(t, "max_fps") {
            Some(ConfigKey::max_fps)
        } else if eq_lit(t, "title_clean_regex") {
            Some(ConfigKey::title_clean_regex)
        } else if eq_lit(t, "max_upload_retries") {
            Some(ConfigKey::max_upload_retries)
        } else if eq_lit(t, "disabled_uploaders") {
            Some(ConfigKey::disabled_uploaders)
        } else if eq_lit(t, "thumbnail_size") {
            Some(ConfigKey::thumbnail_size)
        } else if eq_lit(t, "thumbnail_grid") {
            Some(ConfigKey::thumbnail_grid)
        } else if eq_lit(t, "discord_webhook_url") {
            Some(ConfigKey::discord_webhook_url)
        } else if eq_lit(t, "upload_complete_message_template") {
            Some(ConfigKey::upload_complete_message_template)
        } else if eq_lit(t, "output_directory") {
            Some(ConfigKey::output_directory)
        } else if eq_lit(t, "min_free_space") {
            Some(ConfigKey::min_free_space)
        } else if eq_lit(t, "retention_max_age") {
            Some(ConfigKey::retention_max_age)
        } else if eq_lit(t, "retention_keep_latest_per_user") {
            Some(ConfigKey::retention_keep_latest_per_user)
        } else {
            None
        }
    }

    /// Every setting, in order.
    pub fn all() -> (v: Vec<ConfigKey>)
        ensures
            v@ == all_keys(),
    {
        let mut v: Vec<ConfigKey> = Vec::new();
        v.push(ConfigKey::monitors);
        v.push(ConfigKey::min_stream_duration);
        v.push(ConfigKey::stream_reconnect_delay);
        v.push(ConfigKey::stream_metadata_refresh_interval);
        v.push(ConfigKey::step_delay);
        v.push(ConfigKey::fetch_interval);
        v.push(ConfigKey::video_quality);
        v.push(ConfigKey::video_bitrate);
        v.push(ConfigKey::max_bitrate);
        v.push(ConfigKey::max_fps);
        v.push(ConfigKey::title_clean_regex);
        v.push(ConfigKey::max_upload_retries);
        v.push(ConfigKey::disabled_uploaders);
        v.push(ConfigKey::thumbnail_size);
        v.push(ConfigKey::thumbnail_grid);
        v.push(ConfigKey::discord_webhook_url);
        v.push(ConfigKey::upload_complete_message_template);
        v.push(ConfigKey::output_directory);
        v.push(ConfigKey::min_free_space);
        v.push(ConfigKey::retention_max_age);
        v.push(ConfigKey::retention_keep_latest_per_user);
        assert(v@ =~= all_keys());
        v
    }

    /// The category the setting belongs to.
    pub fn category(&self) -> (c: ConfigCategory)
        ensures
            c == key_category(*self),
    {
        match self {
            ConfigKey::monitors => ConfigCategory::monitoring,
            ConfigKey::min_stream_duration => ConfigCategory::monitoring,
            ConfigKey::stream_reconnect_delay => ConfigCategory::monitoring,
            ConfigKey::stream_metadata_refresh_interval => ConfigCategory::monitoring,
            ConfigKey::step_delay => ConfigCategory::monitoring,
            ConfigKey::fetch_interval => ConfigCategory::monitoring,
            ConfigKey::video_quality => ConfigCategory::video,
            ConfigKey::video_bitrate => ConfigCategory::video,
            ConfigKey::max_bitrate => ConfigCategory::video,
            ConfigKey::max_fps => ConfigCategory::video,
            ConfigKey::title_clean_regex => ConfigCategory::post_processing,
            ConfigKey::max_upload_retries => ConfigCategory::uploads,
            ConfigKey::disabled_uploaders => ConfigCategory::uploads,
            ConfigKey::thumbnail_size => ConfigCategory::thumbnails,
            ConfigKey::thumbnail_grid => ConfigCategory::thumbnails,
            ConfigKey::discord_webhook_url => ConfigCategory::notifications,
            ConfigKey::upload_complete_message_template => ConfigCategory::notifications,
            ConfigKey::output_directory => ConfigCategory::storage,
            ConfigKey::min_free_space => ConfigCategory::storage,
            ConfigKey::retention_max_age => ConfigCategory::storage,
            ConfigKey::retention_keep_latest_per_user => ConfigCategory::storage,
        }
    }
    /// Whether the setting holds a list.
    pub fn is_array(&self) -> (b: bool)
        ensures
            b == key_is_list(*self),
    {
        match self {
            ConfigKey::monitors | ConfigKey::title_clean_regex | ConfigKey::disabled_uploaders => true,
            _ => false,
        }
    }
}

/// What a setting stores, as the contracts see it; `None` means the default applies.
pub enum Stored {
    List(Option<Seq<Seq<char>>>),
    Span(Option<nat>),
    Number(Option<u32>),
    Text(Option<Seq<char>>),
    Size(Option<u64>),
}


/// `s` when the check passes, else the check's error.
pub open spec fn with_verdict(s: Stored, verdict: Result<(), Seq<char>>) -> Result<Stored, Seq<char>> {
    match verdict {
        Ok(_) => Ok(s),
        Err(e) => Err(e),
    }
}

/// The error for a value that a setting refuses.
pub open spec fn invalid_value(k: ConfigKey, why: Seq<char>) -> Seq<char> {
    "Invalid value for '"@ + key_name(k) + "': "@ + why
}

/// The error for a name that is no setting.
pub open spec fn unknown_key(name: Seq<char>) -> Seq<char> {
    "Unknown key: "@ + name
}

fn invalid_value_message(k: ConfigKey, why: &str) -> (s: String)
    ensures
        s@ == invalid_value(k, why@),
{
    concat4("Invalid value for '", k.as_str(), "': ", why)
}

/// A setting's stored value as the contracts see it.
impl Config {
    pub open spec fn stored(self, k: ConfigKey) -> Stored {
        match k {
            ConfigKey::monitors => Stored::List(opt_list(self.monitors)),
            ConfigKey::min_stream_duration => Stored::Span(opt_nanos(self.min_stream_duration)),
            ConfigKey::stream_reconnect_delay => Stored::Span(opt_nanos(self.stream_reconnect_delay)),
            ConfigKey::stream_metadata_refresh_interval => Stored::Span(opt_nanos(self.stream_metadata_refresh_interval)),
            ConfigKey::step_delay => Stored::Span(opt_nanos(self.step_delay)),
            ConfigKey::fetch_interval => Stored::Span(opt_nanos(self.fetch_interval)),
            ConfigKey::video_quality => Stored::Number(self.video_quality),
            ConfigKey::video_bitrate => Stored::Text(opt_text(self.video_bitrate)),
            ConfigKey::max_bitrate => Stored::Text(opt_text(self.max_bitrate)),
            ConfigKey::max_fps => Stored::Number(self.max_fps),
            ConfigKey::title_clean_regex => Stored::List(opt_list(self.title_clean_regex)),
            ConfigKey::max_upload_retries => Stored::Number(self.max_upload_retries),
            ConfigKey::disabled_uploaders => Stored::List(opt_list(self.disabled_uploaders)),
            ConfigKey::thumbnail_size => Stored::Text(opt_text(self.thumbnail_size)),
            ConfigKey::thumbnail_grid => Stored::Text(opt_text(self.thumbnail_grid)),
            ConfigKey::discord_webhook_url => Stored::Text(opt_text(self.discord_webhook_url)),
            ConfigKey::upload_complete_message_template => Stored::Text(opt_text(self.upload_complete_message_template)),
            ConfigKey::output_directory => Stored::Text(opt_text(self.output_directory)),
            ConfigKey::min_free_space => Stored::Size(opt_bytes(self.min_free_space)),
            ConfigKey::retention_max_age => Stored::Span(opt_nanos(self.retention_max_age)),
            ConfigKey::retention_keep_latest_per_user => Stored::Number(self.retention_keep_latest_per_user),
        }
    }
}

/// What a setting stores once reset: nothing, so that its default applies.
pub open spec fn cleared(k: ConfigKey) -> Stored {
    match k {
        ConfigKey::monitors => Stored::List(None),
        ConfigKey::min_stream_duration => Stored::Span(None),
        ConfigKey::stream_reconnect_delay => Stored::Span(None),
        ConfigKey::stream_metadata_refresh_interval => Stored::Span(None),
        ConfigKey::step_delay => Stored::Span(None),
        ConfigKey::fetch_interval => Stored::Span(None),
        ConfigKey::video_quality => Stored::Number(None),
        ConfigKey::video_bitrate => Stored::Text(None),
        ConfigKey::max_bitrate => Stored::Text(None),
        ConfigKey::max_fps => Stored::Number(None),
        ConfigKey::title_clean_regex => Stored::List(None),
        ConfigKey::max_upload_retries => Stored::Number(None),
        ConfigKey::disabled_uploaders => Stored::List(None),
        ConfigKey::thumbnail_size => Stored::Text(None),
        ConfigKey::thumbnail_grid => Stored::Text(None),
        ConfigKey::discord_webhook_url => Stored::Text(None),
        ConfigKey::upload_complete_message_template => Stored::Text(None),
        ConfigKey::output_directory => Stored::Text(None),
        ConfigKey::min_free_space => Stored::Size(None),
        ConfigKey::retention_max_age => Stored::Span(None),
        ConfigKey::retention_keep_latest_per_user => Stored::Number(None),
    }
}

/// What `set_value` stores for `input`, or why it refuses it.
pub open spec fn parse_setting(k: ConfigKey, input: Seq<char>) -> Result<Stored, Seq<char>> {
    match k {
        ConfigKey::monitors => match Ok::<Option<Seq<Seq<char>>>, Seq<char>>(list_parse(input, Seq::empty())) {
            Ok(v) => with_verdict(Stored::List(v), Ok::<(), Seq<char>>(())),
            Err(e) => Err(e),
        },
        ConfigKey::min_stream_duration => match optional_duration_parse(input, None) {
            Ok(v) => with_verdict(Stored::Span(v), Ok::<(), Seq<char>>(())),
            Err(e) => Err(e),
        },
        ConfigKey::stream_reconnect_delay => match optional_duration_parse(input, None) {
            Ok(v) => with_verdict(Stored::Span(v), Ok::<(), Seq<char>>(())),
            Err(e) => Err(e),
        },
        ConfigKey::stream_metadata_refresh_interval => match optional_duration_parse(input, None) {
            Ok(v) => with_verdict(Stored::Span(v), positive_duration_check(v)),
            Err(e) => Err(e),
        },
        ConfigKey::step_delay => match duration_parse(input, 500_000_000nat) {
            Ok(v) => with_verdict(Stored::Span(v), Ok::<(), Seq<char>>(())),
            Err(e) => Err(e),
        },
        ConfigKey::fetch_interval => match duration_parse(input, 120_000_000_000nat) {
            Ok(v) => with_verdict(Stored::Span(v), Ok::<(), Seq<char>>(())),
            Err(e) => Err(e),
        },
        ConfigKey::video_quality => match u32_parse(input, 26u32) {
            Ok(v) => with_verdict(Stored::Number(v), video_quality_check(v)),
            Err(e) => Err(e),
        },
        ConfigKey::video_bitrate => match Ok::<Option<Seq<char>>, Seq<char>>(optional_text_parse(input, None)) {
            Ok(v) => with_verdict(Stored::Text(v), optional_bitrate_check(v)),
            Err(e) => Err(e),
        },
        ConfigKey::max_bitrate => match Ok::<Option<Seq<char>>, Seq<char>>(optional_text_parse(input, None)) {
            Ok(v) => with_verdict(Stored::Text(v), optional_bitrate_check(v)),
            Err(e) => Err(e),
        },
        ConfigKey::max_fps => match optional_u32_parse(input, None) {
            Ok(v) => with_verdict(Stored::Number(v), positive_check(v)),
            Err(e) => Err(e),
        },
        ConfigKey::title_clean_regex => match Ok::<Option<Seq<Seq<char>>>, Seq<char>>(list_parse(input, Seq::empty())) {
            Ok(v) => with_verdict(Stored::List(v), optional_regex_list_check(v)),
            Err(e) => Err(e),
        },
        ConfigKey::max_upload_retries => match u32_parse(input, 3u32) {
            Ok(v) => with_verdict(Stored::Number(v), Ok::<(), Seq<char>>(())),
            Err(e) => Err(e),
        },
        ConfigKey::disabled_uploaders => match Ok::<Option<Seq<Seq<char>>>, Seq<char>>(list_parse(input, Seq::empty())) {
            Ok(v) => with_verdict(Stored::List(v), Ok::<(), Seq<char>>(())),
            Err(e) => Err(e),
        },
        ConfigKey::thumbnail_size => match Ok::<Option<Seq<char>>, Seq<char>>(text_parse(input, "320x180"@)) {
            Ok(v) => with_verdict(Stored::Text(v), thumbnail_pair_check(v, "thumbnail size"@, "WIDTHxHEIGHT"@)),
            Err(e) => Err(e),
        },
        ConfigKey::thumbnail_grid => match Ok::<Option<Seq<char>>, Seq<char>>(text_parse(input, "3x3"@)) {
            Ok(v) => with_verdict(Stored::Text(v), thumbnail_pair_check(v, "thumbnail grid"@, "COLSxROWS"@)),
            Err(e) => Err(e),
        },
        ConfigKey::discord_webhook_url => match Ok::<Option<Seq<char>>, Seq<char>>(optional_text_parse(input, None)) {
            Ok(v) => with_verdict(Stored::Text(v), url_check(v)),
            Err(e) => Err(e),
        },
        ConfigKey::upload_complete_message_template => match Ok::<Option<Seq<char>>, Seq<char>>(optional_text_parse(input, None)) {
            Ok(v) => with_verdict(Stored::Text(v), Ok::<(), Seq<char>>(())),
            Err(e) => Err(e),
        },
        ConfigKey::output_directory => match Ok::<Option<Seq<char>>, Seq<char>>(text_parse(input, "./recordings"@)) {
            Ok(v) => with_verdict(Stored::Text(v), Ok::<(), Seq<char>>(())),
            Err(e) => Err(e),
        },
        ConfigKey::min_free_space => match size_parse(input, 20_000_000_000u64) {
            Ok(v) => with_verdict(Stored::Size(v), Ok::<(), Seq<char>>(())),
            Err(e) => Err(e),
        },
        ConfigKey::retention_max_age => match optional_duration_parse(input, None) {
            Ok(v) => with_verdict(Stored::Span(v), Ok::<(), Seq<char>>(())),
            Err(e) => Err(e),
        },
        ConfigKey::retention_keep_latest_per_user => match optional_u32_parse(input, None) {
            Ok(v) => with_verdict(Stored::Number(v), positive_check(v)),
            Err(e) => Err(e),
        },
    }
}

/// The verdict of a setting's check on what it stores.
pub open spec fn verdict(k: ConfigKey, s: Stored) -> Result<(), Seq<char>> {
    match (k, s) {
        (ConfigKey::stream_metadata_refresh_interval, Stored::Span(v)) => positive_duration_check(v),
        (ConfigKey::video_quality, Stored::Number(v)) => video_quality_check(v),
        (ConfigKey::video_bitrate, Stored::Text(v)) => optional_bitrate_check(v),
        (ConfigKey::max_bitrate, Stored::Text(v)) => optional_bitrate_check(v),
        (ConfigKey::max_fps, Stored::Number(v)) => positive_check(v),
        (ConfigKey::title_clean_regex, Stored::List(v)) => optional_regex_list_check(v),
        (ConfigKey::thumbnail_size, Stored::Text(v)) => thumbnail_pair_check(v, "thumbnail size"@, "WIDTHxHEIGHT"@),
        (ConfigKey::thumbnail_grid, Stored::Text(v)) => thumbnail_pair_check(v, "thumbnail grid"@, "COLSxROWS"@),
        (ConfigKey::discord_webhook_url, Stored::Text(v)) => url_check(v),
        (ConfigKey::retention_keep_latest_per_user, Stored::Number(v)) => positive_check(v),
        _ => Ok(()),
    }
}

/// The text `get_value` shows for a setting that stores `s`.
pub open spec fn shown(k: ConfigKey, s: Stored) -> Seq<char> {
    match (k, s) {
        (ConfigKey::monitors, Stored::List(v)) => list_text(match v { Some(items) => items, None => Seq::empty() }),
        (ConfigKey::min_stream_duration, Stored::Span(v)) => optional_duration_text(v),
        (ConfigKey::stream_reconnect_delay, Stored::Span(v)) => optional_duration_text(v),
        (ConfigKey::stream_metadata_refresh_interval, Stored::Span(v)) => optional_duration_text(v),
        (ConfigKey::step_delay, Stored::Span(v)) => display(match v { Some(n) => n, None => 500_000_000nat }),
        (ConfigKey::fetch_interval, Stored::Span(v)) => display(match v { Some(n) => n, None => 120_000_000_000nat }),
        (ConfigKey::video_quality, Stored::Number(v)) => dec(match v { Some(n) => n, None => 26u32 } as nat),
        (ConfigKey::video_bitrate, Stored::Text(v)) => optional_text_shown(v),
        (ConfigKey::max_bitrate, Stored::Text(v)) => optional_text_shown(v),
        (ConfigKey::max_fps, Stored::Number(v)) => optional_u32_text(v),
        (ConfigKey::title_clean_regex, Stored::List(v)) => list_text(match v { Some(items) => items, None => Seq::empty() }),
        (ConfigKey::max_upload_retries, Stored::Number(v)) => dec(match v { Some(n) => n, None => 3u32 } as nat),
        (ConfigKey::disabled_uploaders, Stored::List(v)) => list_text(match v { Some(items) => items, None => Seq::empty() }),
        (ConfigKey::thumbnail_size, Stored::Text(v)) => match v { Some(t) => t, None => "320x180"@ },
        (ConfigKey::thumbnail_grid, Stored::Text(v)) => match v { Some(t) => t, None => "3x3"@ },
        (ConfigKey::discord_webhook_url, Stored::Text(v)) => optional_text_shown(v),
        (ConfigKey::upload_complete_message_template, Stored::Text(v)) => optional_text_shown(v),
        (ConfigKey::output_directory, Stored::Text(v)) => match v { Some(t) => t, None => "./recordings"@ },
        (ConfigKey::min_free_space, Stored::Size(v)) => size_text(match v { Some(n) => n, None => 20_000_000_000u64 } as nat),
        (ConfigKey::retention_max_age, Stored::Span(v)) => optional_duration_text(v),
        (ConfigKey::retention_keep_latest_per_user, Stored::Number(v)) => optional_u32_text(v),
        _ => Seq::empty(),
    }
}

/// The text shown for a setting's default.
pub open spec fn default_text(k: ConfigKey) -> Seq<char> {
    match k {
        ConfigKey::monitors => "none"@,
        ConfigKey::min_stream_duration => "none"@,
        ConfigKey::stream_reconnect_delay => "none"@,
        ConfigKey::stream_metadata_refresh_interval => "none"@,
        ConfigKey::step_delay => display(500_000_000nat),
        ConfigKey::fetch_interval => display(120_000_000_000nat),
        ConfigKey::video_quality => dec(26u32 as nat),
        ConfigKey::video_bitrate => "none"@,
        ConfigKey::max_bitrate => "none"@,
        ConfigKey::max_fps => "none"@,
        ConfigKey::title_clean_regex => "none"@,
        ConfigKey::max_upload_retries => dec(3u32 as nat),
        ConfigKey::disabled_uploaders => "none"@,
        ConfigKey::thumbnail_size => "320x180"@,
        ConfigKey::thumbnail_grid => "3x3"@,
        ConfigKey::discord_webhook_url => "none"@,
        ConfigKey::upload_complete_message_template => "none"@,
        ConfigKey::output_directory => "./recordings"@,
        ConfigKey::min_free_space => size_text(20_000_000_000u64 as nat),
        ConfigKey::retention_max_age => "none"@,
        ConfigKey::retention_keep_latest_per_user => "none"@,
    }
}

/// The description of a setting.
pub open spec fn description(k: ConfigKey) -> Seq<char> {
    match k {
        ConfigKey::monitors => "List of usernames to monitor"@,
        ConfigKey::min_stream_duration => "Minimum recorded duration required before post-processing. Accepts values like 5m, 90s, or 1h."@,
        ConfigKey::stream_reconnect_delay => "How long to wait for a stream continuation before post-processing. Accepts values like 5m, 30s, or 1h."@,
        ConfigKey::stream_metadata_refresh_interval => "Refresh extracted stream metadata during active recordings. Accepts values like 30s, 5m, or 1h."@,
        ConfigKey::step_delay => "Delay between each step in a platform. Accepts values like 500ms, 2s, or 1m."@,
        ConfigKey::fetch_interval => "How often monitors are fetched. Accepts values like 30s, 2m, or 1h."@,
        ConfigKey::video_quality => "Quality target for variable bitrate video encoding (lower is better)"@,
        ConfigKey::video_bitrate => "Constant video bitrate for CBR encoding (e.g. 6M, 5000k). When set, uses CBR mode and overrides video_quality."@,
        ConfigKey::max_bitrate => "Maximum video bitrate (e.g. 6M, 2500k). When set, adds -maxrate and -bufsize to ffmpeg"@,
        ConfigKey::max_fps => "Maximum framerate a stream will be recorded at."@,
        ConfigKey::title_clean_regex => "Global regular expressions used to clean stream titles for uploader naming"@,
        ConfigKey::max_upload_retries => "Maximum number of upload retries"@,
        ConfigKey::disabled_uploaders => "List of uploaders to skip uploading to"@,
        ConfigKey::thumbnail_size => "Size of each thumbnail in the grid, in WIDTHxHEIGHT format"@,
        ConfigKey::thumbnail_grid => "Grid layout for thumbnails, in COLSxROWS format"@,
        ConfigKey::discord_webhook_url => "Discord webhook URL for notifications"@,
        ConfigKey::upload_complete_message_template => "Template for upload completion messages"@,
        ConfigKey::output_directory => "Directory to save recordings"@,
        ConfigKey::min_free_space => "Minimum free disk space before cleanup (e.g. 20GB, 500MB)"@,
        ConfigKey::retention_max_age => "Delete recordings older than this age. Accepts values like 7d, 48h, or 14d."@,
        ConfigKey::retention_keep_latest_per_user => "Keep only this many of the newest recordings per user"@,
    }
}

/// The application's settings. A field holds `None` when the setting's default
/// applies.
#[derive(Clone, Debug)]
pub struct Config {
    pub monitors: Option<Vec<String>>,
    pub min_stream_duration: Option<DurationValue>,
    pub stream_reconnect_delay: Option<DurationValue>,
    pub stream_metadata_refresh_interval: Option<DurationValue>,
    pub step_delay: Option<DurationValue>,
    pub fetch_interval: Option<DurationValue>,
    pub video_quality: Option<u32>,
    pub video_bitrate: Option<String>,
    pub max_bitrate: Option<String>,
    pub max_fps: Option<u32>,
    pub title_clean_regex: Option<Vec<String>>,
    pub max_upload_retries: Option<u32>,
    pub disabled_uploaders: Option<Vec<String>>,
    pub thumbnail_size: Option<String>,
    pub thumbnail_grid: Option<String>,
    pub discord_webhook_url: Option<String>,
    pub upload_complete_message_template: Option<String>,
    pub output_directory: Option<String>,
    pub min_free_space: Option<FileSizeValue>,
    pub retention_max_age: Option<DurationValue>,
    pub retention_keep_latest_per_user: Option<u32>,
}

impl Default for Config {
    fn default() -> (c: Self)
        ensures
            forall|k: ConfigKey| #[trigger] c.stored(k) == cleared(k),
    {
        Config {
            monitors: None,
            min_stream_duration: None,
            stream_reconnect_delay: None,
            stream_metadata_refresh_interval: None,
            step_delay: None,
            fetch_interval: None,
            video_quality: None,
            video_bitrate: None,
            max_bitrate: None,
            max_fps: None,
            title_clean_regex: None,
            max_upload_retries: None,
            disabled_uploaders: None,
            thumbnail_size: None,
            thumbnail_grid: None,
            discord_webhook_url: None,
            upload_complete_message_template: None,
            output_directory: None,
            min_free_space: None,
            retention_max_age: None,
            retention_keep_latest_per_user: None,
        }
    }
}

impl Config {
    fn check_key(&self, k: ConfigKey) -> (r: Result<(), String>)
        ensures
            agrees(r, verdict(k, self.stored(k))),
    {
        match k {
            ConfigKey::stream_metadata_refresh_interval => PositiveDuration::validate(&self.stream_metadata_refresh_interval),
            ConfigKey::video_quality => VideoQuality::validate(&self.video_quality),
            ConfigKey::video_bitrate => FfmpegBitrate::validate(&self.video_bitrate),
            ConfigKey::max_bitrate => FfmpegBitrate::validate(&self.max_bitrate),
            ConfigKey::max_fps => PositiveU32::validate(&self.max_fps),
            ConfigKey::title_clean_regex => RegexList::validate(&self.title_clean_regex),
            ConfigKey::thumbnail_size => ThumbnailSize::validate(&self.thumbnail_size),
            ConfigKey::thumbnail_grid => ThumbnailGrid::validate(&self.thumbnail_grid),
            ConfigKey::discord_webhook_url => Url::validate(&self.discord_webhook_url),
            ConfigKey::retention_keep_latest_per_user => PositiveU32::validate(&self.retention_keep_latest_per_user),
            _ => Ok(()),
        }
    }

    fn show_key(&self, k: ConfigKey) -> (s: String)
        ensures
            s@ == shown(k, self.stored(k)),
    {
        match k {
            ConfigKey::monitors => StringList::format_cli(&self.monitors, &Vec::new()),
            ConfigKey::min_stream_duration => OptionalDuration::format_cli(&self.min_stream_duration, &None),
            ConfigKey::stream_reconnect_delay => OptionalDuration::format_cli(&self.stream_reconnect_delay, &None),
            ConfigKey::stream_metadata_refresh_interval => OptionalDuration::format_cli(&self.stream_metadata_refresh_interval, &None),
            ConfigKey::step_delay => Duration::format_cli(&self.step_delay, &DurationValue::from_millis(500)),
            ConfigKey::fetch_interval => Duration::format_cli(&self.fetch_interval, &DurationValue::from_secs(120)),
            ConfigKey::video_quality => U32::format(&self.video_quality, &26),
            ConfigKey::video_bitrate => OptionalText::format(&self.video_bitrate, &None),
            ConfigKey::max_bitrate => OptionalText::format(&self.max_bitrate, &None),
            ConfigKey::max_fps => OptionalU32::format(&self.max_fps, &None),
            ConfigKey::title_clean_regex => StringList::format_cli(&self.title_clean_regex, &Vec::new()),
            ConfigKey::max_upload_retries => U32::format(&self.max_upload_retries, &3),
            ConfigKey::disabled_uploaders => StringList::format_cli(&self.disabled_uploaders, &Vec::new()),
            ConfigKey::thumbnail_size => Text::format(&self.thumbnail_size, &"320x180".to_owned()),
            ConfigKey::thumbnail_grid => Text::format(&self.thumbnail_grid, &"3x3".to_owned()),
            ConfigKey::discord_webhook_url => OptionalText::format(&self.discord_webhook_url, &None),
            ConfigKey::upload_complete_message_template => OptionalText::format(&self.upload_complete_message_template, &None),
            ConfigKey::output_directory => Text::format(&self.output_directory, &"./recordings".to_owned()),
            ConfigKey::min_free_space => FileSize::format_cli(&self.min_free_space, &FileSizeValue::from_gb(20)),
            ConfigKey::retention_max_age => OptionalDuration::format_cli(&self.retention_max_age, &None),
            ConfigKey::retention_keep_latest_per_user => OptionalU32::format(&self.retention_keep_latest_per_user, &None),
        }
    }

    /// The text shown for the setting's default.
    pub fn get_default_string(&self, key: ConfigKey) -> (s: String)
        ensures
            s@ == default_text(key),
    {
        match key {
            ConfigKey::monitors => StringList::format_default(&Vec::new()),
            ConfigKey::min_stream_duration => OptionalDuration::format_default(&None),
            ConfigKey::stream_reconnect_delay => OptionalDuration::format_default(&None),
            ConfigKey::stream_metadata_refresh_interval => OptionalDuration::format_default(&None),
            ConfigKey::step_delay => Duration::format_default(&DurationValue::from_millis(500)),
            ConfigKey::fetch_interval => Duration::format_default(&DurationValue::from_secs(120)),
            ConfigKey::video_quality => U32::format_default(&26),
            ConfigKey::video_bitrate => OptionalText::format_default(&None),
            ConfigKey::max_bitrate => OptionalText::format_default(&None),
            ConfigKey::max_fps => OptionalU32::format_default(&None),
            ConfigKey::title_clean_regex => StringList::format_default(&Vec::new()),
            ConfigKey::max_upload_retries => U32::format_default(&3),
            ConfigKey::disabled_uploaders => StringList::format_default(&Vec::new()),
            ConfigKey::thumbnail_size => Text::format_default(&"320x180".to_owned()),
            ConfigKey::thumbnail_grid => Text::format_default(&"3x3".to_owned()),
            ConfigKey::discord_webhook_url => OptionalText::format_default(&None),
            ConfigKey::upload_complete_message_template => OptionalText::format_default(&None),
            ConfigKey::output_directory => Text::format_default(&"./recordings".to_owned()),
            ConfigKey::min_free_space => FileSize::format_default(&FileSizeValue::from_gb(20)),
            ConfigKey::retention_max_age => OptionalDuration::format_default(&None),
            ConfigKey::retention_keep_latest_per_user => OptionalU32::format_default(&None),
        }
    }

    fn describe_key(k: ConfigKey) -> (s: String)
        ensures
            s@ == description(k),
    {
        match k {
            ConfigKey::monitors => "List of usernames to monitor".to_owned(),
            ConfigKey::min_stream_duration => "Minimum recorded duration required before post-processing. Accepts values like 5m, 90s, or 1h.".to_owned(),
            ConfigKey::stream_reconnect_delay => "How long to wait for a stream continuation before post-processing. Accepts values like 5m, 30s, or 1h.".to_owned(),
            ConfigKey::stream_metadata_refresh_interval => "Refresh extracted stream metadata during active recordings. Accepts values like 30s, 5m, or 1h.".to_owned(),
            ConfigKey::step_delay => "Delay between each step in a platform. Accepts values like 500ms, 2s, or 1m.".to_owned(),
            ConfigKey::fetch_interval => "How often monitors are fetched. Accepts values like 30s, 2m, or 1h.".to_owned(),
            ConfigKey::video_quality => "Quality target for variable bitrate video encoding (lower is better)".to_owned(),
            ConfigKey::video_bitrate => "Constant video bitrate for CBR encoding (e.g. 6M, 5000k). When set, uses CBR mode and overrides video_quality.".to_owned(),
            ConfigKey::max_bitrate => "Maximum video bitrate (e.g. 6M, 2500k). When set, adds -maxrate and -bufsize to ffmpeg".to_owned(),
            ConfigKey::max_fps => "Maximum framerate a stream will be recorded at.".to_owned(),
            ConfigKey::title_clean_regex => "Global regular expressions used to clean stream titles for uploader naming".to_owned(),
            ConfigKey::max_upload_retries => "Maximum number of upload retries".to_owned(),
            ConfigKey::disabled_uploaders => "List of uploaders to skip uploading to".to_owned(),
            ConfigKey::thumbnail_size => "Size of each thumbnail in the grid, in WIDTHxHEIGHT format".to_owned(),
            ConfigKey::thumbnail_grid => "Grid layout for thumbnails, in COLSxROWS format".to_owned(),
            ConfigKey::discord_webhook_url => "Discord webhook URL for notifications".to_owned(),
            ConfigKey::upload_complete_message_template => "Template for upload completion messages".to_owned(),
            ConfigKey::output_directory => "Directory to save recordings".to_owned(),
            ConfigKey::min_free_space => "Minimum free disk space before cleanup (e.g. 20GB, 500MB)".to_owned(),
            ConfigKey::retention_max_age => "Delete recordings older than this age. Accepts values like 7d, 48h, or 14d.".to_owned(),
            ConfigKey::retention_keep_latest_per_user => "Keep only this many of the newest recordings per user".to_owned(),
        }
    }

    fn set_monitoring_key(&mut self, k: ConfigKey, value: &str) -> (r: Result<(), String>)
        requires
            key_category(k) == ConfigCategory::monitoring,
        ensures
            match parse_setting(k, value@) {
                Ok(s) => r is Ok && final(self).stored(k) == s && forall|j: ConfigKey|
                    j != k ==> #[trigger] final(self).stored(j) == old(self).stored(j),
                Err(e) => r matches Err(m) && m@ == invalid_value(k, e) && *final(self) == *old(self),
            },
    {
        match k {
            ConfigKey::monitors => {
                let parsed = match StringList::parse_cli(value, &Vec::new()) {
                    Ok(v) => v,
                    Err(e) => return Err(invalid_value_message(k, e.as_str())),
                };
                self.monitors = parsed;
                Ok(())
            },
            ConfigKey::min_stream_duration => {
                let parsed = match OptionalDuration::parse_cli(value, &None) {
                    Ok(v) => v,
                    Err(e) => return Err(invalid_value_message(k, e.as_str())),
                };
                self.min_stream_duration = parsed;
                Ok(())
            },
            ConfigKey::stream_reconnect_delay => {
                let parsed = match OptionalDuration::parse_cli(value, &None) {
                    Ok(v) => v,
                    Err(e) => return Err(invalid_value_message(k, e.as_str())),
                };
                self.stream_reconnect_delay = parsed;
                Ok(())
            },
            ConfigKey::stream_metadata_refresh_interval => {
                let parsed = match OptionalDuration::parse_cli(value, &None) {
                    Ok(v) => v,
                    Err(e) => return Err(invalid_value_message(k, e.as_str())),
                };
                match PositiveDuration::validate(&parsed) {
                    Ok(()) => {},
                    Err(e) => return Err(invalid_value_message(k, e.as_str())),
                }
                self.stream_metadata_refresh_interval = parsed;
                Ok(())
            },
            ConfigKey::step_delay => {
                let parsed = match Duration::parse_cli(value, &DurationValue::from_millis(500)) {
                    Ok(v) => v,
                    Err(e) => return Err(invalid_value_message(k, e.as_str())),
                };
                self.step_delay = parsed;
                Ok(())
            },
            ConfigKey::fetch_interval => {
                let parsed = match Duration::parse_cli(value, &DurationValue::from_secs(120)) {
                    Ok(v) => v,
                    Err(e) => return Err(invalid_value_message(k, e.as_str())),
                };
                self.fetch_interval = parsed;
                Ok(())
            },
            _ => Err(String::new()),
        }
    }

    fn set_video_key(&mut self, k: ConfigKey, value: &str) -> (r: Result<(), String>)
        requires
            key_category(k) == ConfigCategory::video,
        ensures
            match parse_setting(k, value@) {
                Ok(s) => r is Ok && final(self).stored(k) == s && forall|j: ConfigKey|
                    j != k ==> #[trigger] final(self).stored(j) == old(self).stored(j),
                Err(e) => r matches Err(m) && m@ == invalid_value(k, e) && *final(self) == *old(self),
            },
    {
        match k {
            ConfigKey::video_quality => {
                let parsed = match U32::parse(value, &26) {
                    Ok(v) => v,
                    Err(e) => return Err(invalid_value_message(k, e.as_str())),
                };
                match VideoQuality::validate(&parsed) {
                    Ok(()) => {},
                    Err(e) => return Err(invalid_value_message(k, e.as_str())),
                }
                self.video_quality = parsed;
                Ok(())
            },
            ConfigKey::video_bitrate => {
                let parsed = match OptionalText::parse(value, &None) {
                    Ok(v) => v,
                    Err(e) => return Err(invalid_value_message(k, e.as_str())),
                };
                match FfmpegBitrate::validate(&parsed) {
                    Ok(()) => {},
                    Err(e) => return Err(invalid_value_message(k, e.as_str())),
                }
                self.video_bitrate = parsed;
                Ok(())
            },
            ConfigKey::max_bitrate => {
                let parsed = match OptionalText::parse(value, &None) {
                    Ok(v) => v,
                    Err(e) => return Err(invalid_value_message(k, e.as_str())),
                };
                match FfmpegBitrate::validate(&parsed) {
                    Ok(()) => {},
                    Err(e) => return Err(invalid_value_message(k, e.as_str())),
                }
                self.max_bitrate = parsed;
                Ok(())
            },
            ConfigKey::max_fps => {
                let parsed = match OptionalU32::parse(value, &None) {
                    Ok(v) => v,
                    Err(e) => return Err(invalid_value_message(k, e.as_str())),
                };
                match PositiveU32::validate(&parsed) {
                    Ok(()) => {},
                    Err(e) => return Err(invalid_value_message(k, e.as_str())),
                }
                self.max_fps = parsed;
                Ok(())
            },
            _ => Err(String::new()),
        }
    }

    fn set_post_processing_key(&mut self, k: ConfigKey, value: &str) -> (r: Result<(), String>)
        requires
            key_category(k) == ConfigCategory::post_processing,
        ensures
            match parse_setting(k, value@) {
                Ok(s) => r is Ok && final(self).stored(k) == s && forall|j: ConfigKey|
                    j != k ==> #[trigger] final(self).stored(j) == old(self).stored(j),
                Err(e) => r matches Err(m) && m@ == invalid_value(k, e) && *final(self) == *old(self),
            },
    {
        match k {
            ConfigKey::title_clean_regex => {
                let parsed = match StringList::parse_cli(value, &Vec::new()) {
                    Ok(v) => v,
                    Err(e) => return Err(invalid_value_message(k, e.as_str())),
                };
                match RegexList::validate(&parsed) {
                    Ok(()) => {},
                    Err(e) => return Err(invalid_value_message(k, e.as_str())),
                }
                self.title_clean_regex = parsed;
                Ok(())
            },
            _ => Err(String::new()),
        }
    }

    fn set_uploads_key(&mut self, k: ConfigKey, value: &str) -> (r: Result<(), String>)
        requires
            key_category(k) == ConfigCategory::uploads,
        ensures
            match parse_setting(k, value@) {
                Ok(s) => r is Ok && final(self).stored(k) == s && forall|j: ConfigKey|
                    j != k ==> #[trigger] final(self).stored(j) == old(self).stored(j),
                Err(e) => r matches Err(m) && m@ == invalid_value(k, e) && *final(self) == *old(self),
            },
    {
        match k {
            ConfigKey::max_upload_retries => {
                let parsed = match U32::parse(value, &3) {
                    Ok(v) => v,
                    Err(e) => return Err(invalid_value_message(k, e.as_str())),
                };
                self.max_upload_retries = parsed;
                Ok(())
            },
            ConfigKey::disabled_uploaders => {
                let parsed = match StringList::parse_cli(value, &Vec::new()) {
                    Ok(v) => v,
                    Err(e) => return Err(invalid_value_message(k, e.as_str())),
                };
                self.disabled_uploaders = parsed;
                Ok(())
            },
            _ => Err(String::new()),
        }
    }

    fn set_thumbnails_key(&mut self, k: ConfigKey, value: &str) -> (r: Result<(), String>)
        requires
            key_category(k) == ConfigCategory::thumbnails,
        ensures
            match parse_setting(k, value@) {
                Ok(s) => r is Ok && final(self).stored(k) == s && forall|j: ConfigKey|
                    j != k ==> #[trigger] final(self).stored(j) == old(self).stored(j),
                Err(e) => r matches Err(m) && m@ == invalid_value(k, e) && *final(self) == *old(self),
            },
    {
        match k {
            ConfigKey::thumbnail_size => {
                let parsed = match Text::parse(value, &"320x180".to_owned()) {
                    Ok(v) => v,
                    Err(e) => return Err(invalid_value_message(k, e.as_str())),
                };
                match ThumbnailSize::validate(&parsed) {
                    Ok(()) => {},
                    Err(e) => return Err(invalid_value_message(k, e.as_str())),
                }
                self.thumbnail_size = parsed;
                Ok(())
            },
            ConfigKey::thumbnail_grid => {
                let parsed = match Text::parse(value, &"3x3".to_owned()) {
                    Ok(v) => v,
                    Err(e) => return Err(invalid_value_message(k, e.as_str())),
                };
                match ThumbnailGrid::validate(&parsed) {
                    Ok(()) => {},
                    Err(e) => return Err(invalid_value_message(k, e.as_str())),
                }
                self.thumbnail_grid = parsed;
                Ok(())
            },
            _ => Err(String::new()),
        }
    }

    fn set_notifications_key(&mut self, k: ConfigKey, value: &str) -> (r: Result<(), String>)
        requires
            key_category(k) == ConfigCategory::notifications,
        ensures
            match parse_setting(k, value@) {
                Ok(s) => r is Ok && final(self).stored(k) == s && forall|j: ConfigKey|
                    j != k ==> #[trigger] final(self).stored(j) == old(self).stored(j),
                Err(e) => r matches Err(m) && m@ == invalid_value(k, e) && *final(self) == *old(self),
            },
    {
        match k {
            ConfigKey::discord_webhook_url => {
                let parsed = match OptionalText::parse(value, &None) {
                    Ok(v) => v,
                    Err(e) => return Err(invalid_value_message(k, e.as_str())),
                };
                match Url::validate(&parsed) {
                    Ok(()) => {},
                    Err(e) => return Err(invalid_value_message(k, e.as_str())),
                }
                self.discord_webhook_url = parsed;
                Ok(())
            },
            ConfigKey::upload_complete_message_template => {
                let parsed = match OptionalText::parse(value, &None) {
                    Ok(v) => v,
                    Err(e) => return Err(invalid_value_message(k, e.as_str())),
                };
                self.upload_complete_message_template = parsed;
                Ok(())
            },
            _ => Err(String::new()),
        }
    }

    fn set_storage_key(&mut self, k: ConfigKey, value: &str) -> (r: Result<(), String>)
        requires
            key_category(k) == ConfigCategory::storage,
        ensures
            match parse_setting(k, value@) {
                Ok(s) => r is Ok && final(self).stored(k) == s && forall|j: ConfigKey|
                    j != k ==> #[trigger] final(self).stored(j) == old(self).stored(j),
                Err(e) => r matches Err(m) && m@ == invalid_value(k, e) && *final(self) == *old(self),
            },
    {
        match k {
            ConfigKey::output_directory => {
                let parsed = match Text::parse(value, &"./recordings".to_owned()) {
                    Ok(v) => v,
                    Err(e) => return Err(invalid_value_message(k, e.as_str())),
                };
                self.output_directory = parsed;
                Ok(())
            },
            ConfigKey::min_free_space => {
                let parsed = match FileSize::parse_cli(value, &FileSizeValue::from_gb(20)) {
                    Ok(v) => v,
                    Err(e) => return Err(invalid_value_message(k, e.as_str())),
                };
                self.min_free_space = parsed;
                Ok(())
            },
            ConfigKey::retention_max_age => {
                let parsed = match OptionalDuration::parse_cli(value, &None) {
                    Ok(v) => v,
                    Err(e) => return Err(invalid_value_message(k, e.as_str())),
                };
                self.retention_max_age = parsed;
                Ok(())
            },
            ConfigKey::retention_keep_latest_per_user => {
                let parsed = match OptionalU32::parse(value, &None) {
                    Ok(v) => v,
                    Err(e) => return Err(invalid_value_message(k, e.as_str())),
                };
                match PositiveU32::validate(&parsed) {
                    Ok(()) => {},
                    Err(e) => return Err(invalid_value_message(k, e.as_str())),
                }
                self.retention_keep_latest_per_user = parsed;
                Ok(())
            },
            _ => Err(String::new()),
        }
    }

    fn set_key(&mut self, k: ConfigKey, value: &str) -> (r: Result<(), String>)
        ensures
            match parse_setting(k, value@) {
                Ok(s) => r is Ok && final(self).stored(k) == s && forall|j: ConfigKey|
                    j != k ==> #[trigger] final(self).stored(j) == old(self).stored(j),
                Err(e) => r matches Err(m) && m@ == invalid_value(k, e) && *final(self) == *old(self),
            },
    {
        match k.category() {
            ConfigCategory::monitoring => self.set_monitoring_key(k, value),
            ConfigCategory::video => self.set_video_key(k, value),
            ConfigCategory::post_processing => self.set_post_processing_key(k, value),
            ConfigCategory::uploads => self.set_uploads_key(k, value),
            ConfigCategory::thumbnails => self.set_thumbnails_key(k, value),
            ConfigCategory::notifications => self.set_notifications_key(k, value),
            ConfigCategory::storage => self.set_storage_key(k, value),
        }
    }

    fn clear_key(&mut self, k: ConfigKey)
        ensures
            final(self).stored(k) == cleared(k),
            forall|j: ConfigKey| j != k ==> #[trigger] final(self).stored(j) == old(self).stored(j),
    {
        match k {
            ConfigKey::monitors => self.monitors = None,
            ConfigKey::min_stream_duration => self.min_stream_duration = None,
            ConfigKey::stream_reconnect_delay => self.stream_reconnect_delay = None,
            ConfigKey::stream_metadata_refresh_interval => self.stream_metadata_refresh_interval = None,
            ConfigKey::step_delay => self.step_delay = None,
            ConfigKey::fetch_interval => self.fetch_interval = None,
            ConfigKey::video_quality => self.video_quality = None,
            ConfigKey::video_bitrate => self.video_bitrate = None,
            ConfigKey::max_bitrate => self.max_bitrate = None,
            ConfigKey::max_fps => self.max_fps = None,
            ConfigKey::title_clean_regex => self.title_clean_regex = None,
            ConfigKey::max_upload_retries => self.max_upload_retries = None,
            ConfigKey::disabled_uploaders => self.disabled_uploaders = None,
            ConfigKey::thumbnail_size => self.thumbnail_size = None,
            ConfigKey::thumbnail_grid => self.thumbnail_grid = None,
            ConfigKey::discord_webhook_url => self.discord_webhook_url = None,
            ConfigKey::upload_complete_message_template => self.upload_complete_message_template = None,
            ConfigKey::output_directory => self.output_directory = None,
            ConfigKey::min_free_space => self.min_free_space = None,
            ConfigKey::retention_max_age => self.retention_max_age = None,
            ConfigKey::retention_keep_latest_per_user => self.retention_keep_latest_per_user = None,
        }
    }

}

impl Config {
    /// The effective `monitors`.
    pub fn get_monitors(&self) -> (v: Vec<String>)
        ensures
            svec(v@) == match opt_list(self.monitors) { Some(items) => items, None => Seq::empty() },
    {
        StringList::get(&self.monitors, &Vec::new())
    }

    /// The effective `min_stream_duration`.
    pub fn get_min_stream_duration(&self) -> (v: Option<DurationValue>)
        ensures
            opt_nanos(v) == opt_nanos(self.min_stream_duration),
    {
        OptionalDuration::get(&self.min_stream_duration, &None)
    }

    /// The effective `stream_reconnect_delay`.
    pub fn get_stream_reconnect_delay(&self) -> (v: Option<DurationValue>)
        ensures
            opt_nanos(v) == opt_nanos(self.stream_reconnect_delay),
    {
        OptionalDuration::get(&self.stream_reconnect_delay, &None)
    }

    /// The effective `stream_metadata_refresh_interval`.
    pub fn get_stream_metadata_refresh_interval(&self) -> (v: Option<DurationValue>)
        ensures
            opt_nanos(v) == opt_nanos(self.stream_metadata_refresh_interval),
    {
        OptionalDuration::get(&self.stream_metadata_refresh_interval, &None)
    }

    /// The effective `step_delay`.
    pub fn get_step_delay(&self) -> (v: DurationValue)
        ensures
            v@ == match opt_nanos(self.step_delay) { Some(n) => n, None => 500_000_000nat },
    {
        Duration::get(&self.step_delay, &DurationValue::from_millis(500))
    }

    /// The effective `fetch_interval`.
    pub fn get_fetch_interval(&self) -> (v: DurationValue)
        ensures
            v@ == match opt_nanos(self.fetch_interval) { Some(n) => n, None => 120_000_000_000nat },
    {
        Duration::get(&self.fetch_interval, &DurationValue::from_secs(120))
    }

    /// The effective `video_quality`.
    pub fn get_video_quality(&self) -> (v: u32)
        ensures
            v == match self.video_quality { Some(n) => n, None => 26u32 },
    {
        U32::get(&self.video_quality, &26)
    }

    /// The effective `video_bitrate`.
    pub fn get_video_bitrate(&self) -> (v: Option<&str>)
        ensures
            opt_str(v) == opt_text(self.video_bitrate),
    {
        match &self.video_bitrate { Some(s) => Some(s.as_str()), None => None }
    }

    /// The effective `max_bitrate`.
    pub fn get_max_bitrate(&self) -> (v: Option<&str>)
        ensures
            opt_str(v) == opt_text(self.max_bitrate),
    {
        match &self.max_bitrate { Some(s) => Some(s.as_str()), None => None }
    }

    /// The effective `max_fps`.
    pub fn get_max_fps(&self) -> (v: Option<u32>)
        ensures
            v == self.max_fps,
    {
        OptionalU32::get(&self.max_fps, &None)
    }

    /// The effective `title_clean_regex`.
    pub fn get_title_clean_regex(&self) -> (v: Vec<String>)
        ensures
            svec(v@) == match opt_list(self.title_clean_regex) { Some(items) => items, None => Seq::empty() },
    {
        StringList::get(&self.title_clean_regex, &Vec::new())
    }

    /// The effective `max_upload_retries`.
    pub fn get_max_upload_retries(&self) -> (v: u32)
        ensures
            v == match self.max_upload_retries { Some(n) => n, None => 3u32 },
    {
        U32::get(&self.max_upload_retries, &3)
    }

    /// The effective `disabled_uploaders`.
    pub fn get_disabled_uploaders(&self) -> (v: Vec<String>)
        ensures
            svec(v@) == match opt_list(self.disabled_uploaders) { Some(items) => items, None => Seq::empty() },
    {
        StringList::get(&self.disabled_uploaders, &Vec::new())
    }

    /// The effective `thumbnail_size`.
    pub fn get_thumbnail_size(&self) -> (v: String)
        ensures
            v@ == match opt_text(self.thumbnail_size) { Some(t) => t, None => "320x180"@ },
    {
        Text::get(&self.thumbnail_size, &"320x180".to_owned())
    }

    /// The effective `thumbnail_grid`.
    pub fn get_thumbnail_grid(&self) -> (v: String)
        ensures
            v@ == match opt_text(self.thumbnail_grid) { Some(t) => t, None => "3x3"@ },
    {
        Text::get(&self.thumbnail_grid, &"3x3".to_owned())
    }

    /// The effective `discord_webhook_url`.
    pub fn get_discord_webhook_url(&self) -> (v: Option<&str>)
        ensures
            opt_str(v) == opt_text(self.discord_webhook_url),
    {
        match &self.discord_webhook_url { Some(s) => Some(s.as_str()), None => None }
    }

    /// The effective `upload_complete_message_template`.
    pub fn get_upload_complete_message_template(&self) -> (v: Option<&str>)
        ensures
            opt_str(v) == opt_text(self.upload_complete_message_template),
    {
        match &self.upload_complete_message_template { Some(s) => Some(s.as_str()), None => None }
    }

    /// The effective `output_directory`.
    pub fn get_output_directory(&self) -> (v: String)
        ensures
            v@ == match opt_text(self.output_directory) { Some(t) => t, None => "./recordings"@ },
    {
        Text::get(&self.output_directory, &"./recordings".to_owned())
    }

    /// The effective `min_free_space`.
    pub fn get_min_free_space(&self) -> (v: FileSizeValue)
        ensures
            v.0 == match opt_bytes(self.min_free_space) { Some(n) => n, None => 20_000_000_000u64 },
    {
        FileSize::get(&self.min_free_space, &FileSizeValue::from_gb(20))
    }

    /// The effective `retention_max_age`.
    pub fn get_retention_max_age(&self) -> (v: Option<DurationValue>)
        ensures
            opt_nanos(v) == opt_nanos(self.retention_max_age),
    {
        OptionalDuration::get(&self.retention_max_age, &None)
    }

    /// The effective `retention_keep_latest_per_user`.
    pub fn get_retention_keep_latest_per_user(&self) -> (v: Option<u32>)
        ensures
            v == self.retention_keep_latest_per_user,
    {
        OptionalU32::get(&self.retention_keep_latest_per_user, &None)
    }

}

/// The first setting of `keys` whose check refuses what `c` stores, with the reason.
pub open spec fn first_failure(c: Config, keys: Seq<ConfigKey>) -> Option<(ConfigKey, Seq<char>)>
    decreases keys.len(),
{
    if keys.len() == 0 {
        None
    } else {
        match verdict(keys[0], c.stored(keys[0])) {
            Err(e) => Some((keys[0], e)),
            Ok(_) => first_failure(c, keys.drop_first()),
        }
    }
}

impl Config {
    /// Checks every stored value, in the order the settings are listed, and reports
    /// the first one that its setting refuses.
    pub fn validate(&self) -> (r: Result<(), String>)
        ensures
            match first_failure(*self, all_keys()) {
                None => r is Ok,
                Some((k, e)) => r matches Err(m) && m@ == invalid_value(k, e),
            },
    {
        let keys = ConfigKey::all();
        let mut i: usize = 0;
        assert(keys@.skip(0) == keys@);
        while i < keys.len()
            invariant
                i <= keys@.len(),
                keys@ == all_keys(),
                first_failure(*self, keys@.skip(i as int)) == first_failure(*self, all_keys()),
            decreases keys@.len() - i,
        {
            let k = keys[i];
            let ghost rest = keys@.skip(i as int);
            assert(rest[0] == k);
            assert(rest.drop_first() == keys@.skip(i + 1));
            match self.check_key(k) {
                Ok(()) => {},
                Err(e) => {
                    return Err(invalid_value_message(k, e.as_str()));
                },
            }
            i = i + 1;
        }
        assert(keys@.skip(i as int).len() == 0);
        Ok(())
    }

    /// The text of a setting's effective value, or `unknown key`.
    pub fn get_value(&self, key: &str) -> (s: String)
        ensures
            s@ == match key_named(key@) {
                Some(k) => shown(k, self.stored(k)),
                None => "unknown key"@,
            },
    {
        match ConfigKey::from_key(key) {
            Some(k) => self.show_key(k),
            None => "unknown key".to_owned(),
        }
    }

    /// Sets a setting from the text typed on the command line. The text is parsed
    /// and checked as the setting requires; a value equal to the default is stored
    /// as nothing, and `none` clears the setting. On an error nothing changes.
    pub fn set_value(&mut self, key: &str, value: &str) -> (r: Result<(), String>)
        ensures
            match key_named(key@) {
                None => r matches Err(m) && m@ == unknown_key(key@) && *final(self) == *old(self),
                Some(k) => match parse_setting(k, value@) {
                    Ok(s) => r is Ok && final(self).stored(k) == s && forall|j: ConfigKey|
                        j != k ==> #[trigger] final(self).stored(j) == old(self).stored(j),
                    Err(e) => r matches Err(m) && m@ == invalid_value(k, e) && *final(self)
                        == *old(self),
                },
            },
    {
        match ConfigKey::from_key(key) {
            Some(k) => self.set_key(k, value),
            None => Err(concat2("Unknown key: ", key)),
        }
    }

    /// Clears a setting so that its default applies, and gives the default's text.
    pub fn reset_key(&mut self, key: &str) -> (r: Result<String, String>)
        ensures
            match key_named(key@) {
                None => r matches Err(m) && m@ == unknown_key(key@) && *final(self) == *old(self),
                Some(k) => r matches Ok(t) && t@ == default_text(k) && final(self).stored(k)
                    == cleared(k) && forall|j: ConfigKey|
                    j != k ==> #[trigger] final(self).stored(j) == old(self).stored(j),
            },
    {
        match ConfigKey::from_key(key) {
            Some(k) => {
                self.clear_key(k);
                Ok(self.get_default_string(k))
            },
            None => Err(concat2("Unknown key: ", key)),
        }
    }

    /// The description of a setting, or `unknown key`.
    pub fn get_description(&self, key: &str) -> (s: String)
        ensures
            s@ == match key_named(key@) {
                Some(k) => description(k),
                None => "unknown key"@,
            },
    {
        match ConfigKey::from_key(key) {
            Some(k) => Self::describe_key(k),
            None => "unknown key".to_owned(),
        }
    }
}

} // verus!
