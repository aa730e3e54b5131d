use vstd::prelude::*;
use crate::config::types::is_none_word;
use crate::config::{
    all_categories, all_keys, category_keys, cleared, default_text, key_category, key_name,
    key_named, parse_setting, shown, ConfigCategory, ConfigKey, Stored,
};
use crate::text::{all_digits, dec, digits_value, lemma_dec_digits, lower, lower_seq, parse_u32};

verus! {

/// The keys of the given categories, one category after another.
pub open spec fn keys_of(cs: Seq<ConfigCategory>) -> Seq<ConfigKey>
    decreases cs.len(),
{
    if cs.len() == 0 {
        Seq::empty()
    } else {
        keys_of(cs.drop_last()) + category_keys(cs.last())
    }
}

/// The category lists, taken in order, list every setting once and in order, and
/// each setting is listed under its own category.
pub proof fn lemma_categories_cover_keys(k: ConfigKey)
    ensures
        keys_of(all_categories()) == all_keys(),
        category_keys(key_category(k)).contains(k),
{
    reveal_with_fuel(keys_of, 8);
    assert(keys_of(all_categories()) =~= all_keys());
    match k {
        ConfigKey::monitors => assert(category_keys(key_category(k))[0] == k),
        ConfigKey::min_stream_duration => assert(category_keys(key_category(k))[1] == k),
        ConfigKey::stream_reconnect_delay => assert(category_keys(key_category(k))[2] == k),
        ConfigKey::stream_metadata_refresh_interval => assert(category_keys(key_category(k))[3]
            == k),
        ConfigKey::step_delay => assert(category_keys(key_category(k))[4] == k),
        ConfigKey::fetch_interval => assert(category_keys(key_category(k))[5] == k),
        ConfigKey::video_quality => assert(category_keys(key_category(k))[0] == k),
        ConfigKey::video_bitrate => assert(category_keys(key_category(k))[1] == k),
        ConfigKey::max_bitrate => assert(category_keys(key_category(k))[2] == k),
        ConfigKey::max_fps => assert(category_keys(key_category(k))[3] == k),
        ConfigKey::title_clean_regex => assert(category_keys(key_category(k))[0] == k),
        ConfigKey::max_upload_retries => assert(category_keys(key_category(k))[0] == k),
        ConfigKey::disabled_uploaders => assert(category_keys(key_category(k))[1] == k),
        ConfigKey::thumbnail_size => assert(category_keys(key_category(k))[0] == k),
        ConfigKey::thumbnail_grid => assert(category_keys(key_category(k))[1] == k),
        ConfigKey::discord_webhook_url => assert(category_keys(key_category(k))[0] == k),
        ConfigKey::upload_complete_message_template => assert(category_keys(key_category(k))[1]
            == k),
        ConfigKey::output_directory => assert(category_keys(key_category(k))[0] == k),
        ConfigKey::min_free_space => assert(category_keys(key_category(k))[1] == k),
        ConfigKey::retention_max_age => assert(category_keys(key_category(k))[2] == k),
        ConfigKey::retention_keep_latest_per_user => assert(category_keys(key_category(k))[3]
            == k),
    }
}

/// A cleared setting shows its default's text.
pub proof fn lemma_cleared_shows_default(k: ConfigKey)
    ensures
        shown(k, cleared(k)) == default_text(k),
{
}

/// `none`, in any case, clears every setting, and no setting's check refuses it.
pub proof fn lemma_none_clears(k: ConfigKey, input: Seq<char>)
    requires
        is_none_word(input),
    ensures
        parse_setting(k, input) == Ok::<Stored, Seq<char>>(cleared(k)),
{
}

/// A setting's name names that setting.
pub proof fn lemma_key_name_round_trip(k: ConfigKey)
    ensures
        key_named(key_name(k)) == Some(k),
{
    match k {
        ConfigKey::monitors => {
            reveal_strlit("monitors");
        },
        ConfigKey::min_stream_duration => {
            reveal_strlit("min_stream_duration");
            reveal_strlit("monitors");
            assert("min_stream_duration"@.len() != "monitors"@.len());
            assert("min_stream_duration"@ != "monitors"@);
        },
        ConfigKey::stream_reconnect_delay => {
            reveal_strlit("stream_reconnect_delay");
            reveal_strlit("monitors");
            assert("stream_reconnect_delay"@.len() != "monitors"@.len());
            assert("stream_reconnect_delay"@ != "monitors"@);
            reveal_strlit("min_stream_duration");
            assert("stream_reconnect_delay"@.len() != "min_stream_duration"@.len());
            assert("stream_reconnect_delay"@ != "min_stream_duration"@);
        },
        ConfigKey::stream_metadata_refresh_interval => {
            reveal_strlit("stream_metadata_refresh_interval");
            reveal_strlit("monitors");
            assert("stream_metadata_refresh_interval"@.len() != "monitors"@.len());
            assert("stream_metadata_refresh_interval"@ != "monitors"@);
            reveal_strlit("min_stream_duration");
            assert("stream_metadata_refresh_interval"@.len() != "min_stream_duration"@.len());
            assert("stream_metadata_refresh_interval"@ != "min_stream_duration"@);
            reveal_strlit("stream_reconnect_delay");
            assert("stream_metadata_refresh_interval"@.len() != "stream_reconnect_delay"@.len());
            assert("stream_metadata_refresh_interval"@ != "stream_reconnect_delay"@);
        },
        ConfigKey::step_delay => {
            reveal_strlit("step_delay");
            reveal_strlit("monitors");
            assert("step_delay"@.len() != "monitors"@.len());
            assert("step_delay"@ != "monitors"@);
            reveal_strlit("min_stream_duration");
            assert("step_delay"@.len() != "min_stream_duration"@.len());
            assert("step_delay"@ != "min_stream_duration"@);
            reveal_strlit("stream_reconnect_delay");
            assert("step_delay"@.len() != "stream_reconnect_delay"@.len());
            assert("step_delay"@ != "stream_reconnect_delay"@);
            reveal_strlit("stream_metadata_refresh_interval");
            assert("step_delay"@.len() != "stream_metadata_refresh_interval"@.len());
            assert("step_delay"@ != "stream_metadata_refresh_interval"@);
        },
        ConfigKey::fetch_interval => {
            reveal_strlit("fetch_interval");
            reveal_strlit("monitors");
            assert("fetch_interval"@.len() != "monitors"@.len());
            assert("fetch_interval"@ != "monitors"@);
            reveal_strlit("min_stream_duration");
            assert("fetch_interval"@.len() != "min_stream_duration"@.len());
            assert("fetch_interval"@ != "min_stream_duration"@);
            reveal_strlit("stream_reconnect_delay");
            assert("fetch_interval"@.len() != "stream_reconnect_delay"@.len());
            assert("fetch_interval"@ != "stream_reconnect_delay"@);
            reveal_strlit("stream_metadata_refresh_interval");
            assert("fetch_interval"@.len() != "stream_metadata_refresh_interval"@.len());
            assert("fetch_interval"@ != "stream_metadata_refresh_interval"@);
            reveal_strlit("step_delay");
            assert("fetch_interval"@.len() != "step_delay"@.len());
            assert("fetch_interval"@ != "step_delay"@);
        },
        ConfigKey::video_quality => {
            reveal_strlit("video_quality");
            reveal_strlit("monitors");
            assert("video_quality"@.len() != "monitors"@.len());
            assert("video_quality"@ != "monitors"@);
            reveal_strlit("min_stream_duration");
            assert("video_quality"@.len() != "min_stream_duration"@.len());
            assert("video_quality"@ != "min_stream_duration"@);
            reveal_strlit("stream_reconnect_delay");
            assert("video_quality"@.len() != "stream_reconnect_delay"@.len());
            assert("video_quality"@ != "stream_reconnect_delay"@);
            reveal_strlit("stream_metadata_refresh_interval");
            assert("video_quality"@.len() != "stream_metadata_refresh_interval"@.len());
            assert("video_quality"@ != "stream_metadata_refresh_interval"@);
            reveal_strlit("step_delay");
            assert("video_quality"@.len() != "step_delay"@.len());
            assert("video_quality"@ != "step_delay"@);
            reveal_strlit("fetch_interval");
            assert("video_quality"@.len() != "fetch_interval"@.len());
            assert("video_quality"@ != "fetch_interval"@);
        },
        ConfigKey::video_bitrate => {
            reveal_strlit("video_bitrate");
            reveal_strlit("monitors");
            assert("video_bitrate"@.len() != "monitors"@.len());
            assert("video_bitrate"@ != "monitors"@);
            reveal_strlit("min_stream_duration");
            assert("video_bitrate"@.len() != "min_stream_duration"@.len());
            assert("video_bitrate"@ != "min_stream_duration"@);
            reveal_strlit("stream_reconnect_delay");
            assert("video_bitrate"@.len() != "stream_reconnect_delay"@.len());
            assert("video_bitrate"@ != "stream_reconnect_delay"@);
            reveal_strlit("stream_metadata_refresh_interval");
            assert("video_bitrate"@.len() != "stream_metadata_refresh_interval"@.len());
            assert("video_bitrate"@ != "stream_metadata_refresh_interval"@);
            reveal_strlit("step_delay");
            assert("video_bitrate"@.len() != "step_delay"@.len());
            assert("video_bitrate"@ != "step_delay"@);
            reveal_strlit("fetch_interval");
            assert("video_bitrate"@.len() != "fetch_interval"@.len());
            assert("video_bitrate"@ != "fetch_interval"@);
            reveal_strlit("video_quality");
            assert("video_bitrate"@[6] != "video_quality"@[6]);
            assert("video_bitrate"@ != "video_quality"@);
        },
        ConfigKey::max_bitrate => {
            reveal_strlit("max_bitrate");
            reveal_strlit("monitors");
            assert("max_bitrate"@.len() != "monitors"@.len());
            assert("max_bitrate"@ != "monitors"@);
            reveal_strlit("min_stream_duration");
            assert("max_bitrate"@.len() != "min_stream_duration"@.len());
            assert("max_bitrate"@ != "min_stream_duration"@);
            reveal_strlit("stream_reconnect_delay");
            assert("max_bitrate"@.len() != "stream_reconnect_delay"@.len());
            assert("max_bitrate"@ != "stream_reconnect_delay"@);
            reveal_strlit("stream_metadata_refresh_interval");
            assert("max_bitrate"@.len() != "stream_metadata_refresh_interval"@.len());
            assert("max_bitrate"@ != "stream_metadata_refresh_interval"@);
            reveal_strlit("step_delay");
            assert("max_bitrate"@.len() != "step_delay"@.len());
            assert("max_bitrate"@ != "step_delay"@);
            reveal_strlit("fetch_interval");
            assert("max_bitrate"@.len() != "fetch_interval"@.len());
            assert("max_bitrate"@ != "fetch_interval"@);
            reveal_strlit("video_quality");
            assert("max_bitrate"@.len() != "video_quality"@.len());
            assert("max_bitrate"@ != "video_quality"@);
            reveal_strlit("video_bitrate");
            assert("max_bitrate"@.len() != "video_bitrate"@.len());
            assert("max_bitrate"@ != "video_bitrate"@);
        },
        ConfigKey::max_fps => {
            reveal_strlit("max_fps");
            reveal_strlit("monitors");
            assert("max_fps"@.len() != "monitors"@.len());
            assert("max_fps"@ != "monitors"@);
            reveal_strlit("min_stream_duration");
            assert("max_fps"@.len() != "min_stream_duration"@.len());
            assert("max_fps"@ != "min_stream_duration"@);
            reveal_strlit("stream_reconnect_delay");
            assert("max_fps"@.len() != "stream_reconnect_delay"@.len());
            assert("max_fps"@ != "stream_reconnect_delay"@);
            reveal_strlit("stream_metadata_refresh_interval");
            assert("max_fps"@.len() != "stream_metadata_refresh_interval"@.len());
            assert("max_fps"@ != "stream_metadata_refresh_interval"@);
            reveal_strlit("step_delay");
            assert("max_fps"@.len() != "step_delay"@.len());
            assert("max_fps"@ != "step_delay"@);
            reveal_strlit("fetch_interval");
            assert("max_fps"@.len() != "fetch_interval"@.len());
            assert("max_fps"@ != "fetch_interval"@);
            reveal_strlit("video_quality");
            assert("max_fps"@.len() != "video_quality"@.len());
            assert("max_fps"@ != "video_quality"@);
            reveal_strlit("video_bitrate");
            assert("max_fps"@.len() != "video_bitrate"@.len());
            assert("max_fps"@ != "video_bitrate"@);
            reveal_strlit("max_bitrate");
            assert("max_fps"@.len() != "max_bitrate"@.len());
            assert("max_fps"@ != "max_bitrate"@);
        },
        ConfigKey::title_clean_regex => {
            reveal_strlit("title_clean_regex");
            reveal_strlit("monitors");
            assert("title_clean_regex"@.len() != "monitors"@.len());
            assert("title_clean_regex"@ != "monitors"@);
            reveal_strlit("min_stream_duration");
            assert("title_clean_regex"@.len() != "min_stream_duration"@.len());
            assert("title_clean_regex"@ != "min_stream_duration"@);
            reveal_strlit("stream_reconnect_delay");
            assert("title_clean_regex"@.len() != "stream_reconnect_delay"@.len());
            assert("title_clean_regex"@ != "stream_reconnect_delay"@);
            reveal_strlit("stream_metadata_refresh_interval");
            assert("title_clean_regex"@.len() != "stream_metadata_refresh_interval"@.len());
            assert("title_clean_regex"@ != "stream_metadata_refresh_interval"@);
            reveal_strlit("step_delay");
            assert("title_clean_regex"@.len() != "step_delay"@.len());
            assert("title_clean_regex"@ != "step_delay"@);
            reveal_strlit("fetch_interval");
            assert("title_clean_regex"@.len() != "fetch_interval"@.len());
            assert("title_clean_regex"@ != "fetch_interval"@);
            reveal_strlit("video_quality");
            assert("title_clean_regex"@.len() != "video_quality"@.len());
            assert("title_clean_regex"@ != "video_quality"@);
            reveal_strlit("video_bitrate");
            assert("title_clean_regex"@.len() != "video_bitrate"@.len());
            assert("title_clean_regex"@ != "video_bitrate"@);
            reveal_strlit("max_bitrate");
            assert("title_clean_regex"@.len() != "max_bitrate"@.len());
            assert("title_clean_regex"@ != "max_bitrate"@);
            reveal_strlit("max_fps");
            assert("title_clean_regex"@.len() != "max_fps"@.len());
            assert("title_clean_regex"@ != "max_fps"@);
        },
        ConfigKey::max_upload_retries => {
            reveal_strlit("max_upload_retries");
            reveal_strlit("monitors");
            assert("max_upload_retries"@.len() != "monitors"@.len());
            assert("max_upload_retries"@ != "monitors"@);
            reveal_strlit("min_stream_duration");
            assert("max_upload_retries"@.len() != "min_stream_duration"@.len());
            assert("max_upload_retries"@ != "min_stream_duration"@);
            reveal_strlit("stream_reconnect_delay");
            assert("max_upload_retries"@.len() != "stream_reconnect_delay"@.len());
            assert("max_upload_retries"@ != "stream_reconnect_delay"@);
            reveal_strlit("stream_metadata_refresh_interval");
            assert("max_upload_retries"@.len() != "stream_metadata_refresh_interval"@.len());
            assert("max_upload_retries"@ != "stream_metadata_refresh_interval"@);
            reveal_strlit("step_delay");
            assert("max_upload_retries"@.len() != "step_delay"@.len());
            assert("max_upload_retries"@ != "step_delay"@);
            reveal_strlit("fetch_interval");
            assert("max_upload_retries"@.len() != "fetch_interval"@.len());
            assert("max_upload_retries"@ != "fetch_interval"@);
            reveal_strlit("video_quality");
            assert("max_upload_retries"@.len() != "video_quality"@.len());
            assert("max_upload_retries"@ != "video_quality"@);
            reveal_strlit("video_bitrate");
            assert("max_upload_retries"@.len() != "video_bitrate"@.len());
            assert("max_upload_retries"@ != "video_bitrate"@);
            reveal_strlit("max_bitrate");
            assert("max_upload_retries"@.len() != "max_bitrate"@.len());
            assert("max_upload_retries"@ != "max_bitrate"@);
            reveal_strlit("max_fps");
            assert("max_upload_retries"@.len() != "max_fps"@.len());
            assert("max_upload_retries"@ != "max_fps"@);
            reveal_strlit("title_clean_regex");
            assert("max_upload_retries"@.len() != "title_clean_regex"@.len());
            assert("max_upload_retries"@ != "title_clean_regex"@);
        },
        ConfigKey::disabled_uploaders => {
            reveal_strlit("disabled_uploaders");
            reveal_strlit("monitors");
            assert("disabled_uploaders"@.len() != "monitors"@.len());
            assert("disabled_uploaders"@ != "monitors"@);
            reveal_strlit("min_stream_duration");
            assert("disabled_uploaders"@.len() != "min_stream_duration"@.len());
            assert("disabled_uploaders"@ != "min_stream_duration"@);
            reveal_strlit("stream_reconnect_delay");
            assert("disabled_uploaders"@.len() != "stream_reconnect_delay"@.len());
            assert("disabled_uploaders"@ != "stream_reconnect_delay"@);
            reveal_strlit("stream_metadata_refresh_interval");
            assert("disabled_uploaders"@.len() != "stream_metadata_refresh_interval"@.len());
            assert("disabled_uploaders"@ != "stream_metadata_refresh_interval"@);
            reveal_strlit("step_delay");
            assert("disabled_uploaders"@.len() != "step_delay"@.len());
            assert("disabled_uploaders"@ != "step_delay"@);
            reveal_strlit("fetch_interval");
            assert("disabled_uploaders"@.len() != "fetch_interval"@.len());
            assert("disabled_uploaders"@ != "fetch_interval"@);
            reveal_strlit("video_quality");
            assert("disabled_uploaders"@.len() != "video_quality"@.len());
            assert("disabled_uploaders"@ != "video_quality"@);
            reveal_strlit("video_bitrate");
            assert("disabled_uploaders"@.len() != "video_bitrate"@.len());
            assert("disabled_uploaders"@ != "video_bitrate"@);
            reveal_strlit("max_bitrate");
            assert("disabled_uploaders"@.len() != "max_bitrate"@.len());
            assert("disabled_uploaders"@ != "max_bitrate"@);
            reveal_strlit("max_fps");
            assert("disabled_uploaders"@.len() != "max_fps"@.len());
            assert("disabled_uploaders"@ != "max_fps"@);
            reveal_strlit("title_clean_regex");
            assert("disabled_uploaders"@.len() != "title_clean_regex"@.len());
            assert("disabled_uploaders"@ != "title_clean_regex"@);
            reveal_strlit("max_upload_retries");
            assert("disabled_uploaders"@[0] != "max_upload_retries"@[0]);
            assert("disabled_uploaders"@ != "max_upload_retries"@);
        },
        ConfigKey::thumbnail_size => {
            reveal_strlit("thumbnail_size");
            reveal_strlit("monitors");
            assert("thumbnail_size"@.len() != "monitors"@.len());
            assert("thumbnail_size"@ != "monitors"@);
            reveal_strlit("min_stream_duration");
            assert("thumbnail_size"@.len() != "min_stream_duration"@.len());
            assert("thumbnail_size"@ != "min_stream_duration"@);
            reveal_strlit("stream_reconnect_delay");
            assert("thumbnail_size"@.len() != "stream_reconnect_delay"@.len());
            assert("thumbnail_size"@ != "stream_reconnect_delay"@);
            reveal_strlit("stream_metadata_refresh_interval");
            assert("thumbnail_size"@.len() != "stream_metadata_refresh_interval"@.len());
            assert("thumbnail_size"@ != "stream_metadata_refresh_interval"@);
            reveal_strlit("step_delay");
            assert("thumbnail_size"@.len() != "step_delay"@.len());
            assert("thumbnail_size"@ != "step_delay"@);
            reveal_strlit("fetch_interval");
            assert("thumbnail_size"@[0] != "fetch_interval"@[0]);
            assert("thumbnail_size"@ != "fetch_interval"@);
            reveal_strlit("video_quality");
            assert("thumbnail_size"@.len() != "video_quality"@.len());
            assert("thumbnail_size"@ != "video_quality"@);
            reveal_strlit("video_bitrate");
            assert("thumbnail_size"@.len() != "video_bitrate"@.len());
            assert("thumbnail_size"@ != "video_bitrate"@);
            reveal_strlit("max_bitrate");
            assert("thumbnail_size"@.len() != "max_bitrate"@.len());
            assert("thumbnail_size"@ != "max_bitrate"@);
            reveal_strlit("max_fps");
            assert("thumbnail_size"@.len() != "max_fps"@.len());
            assert("thumbnail_size"@ != "max_fps"@);
            reveal_strlit("title_clean_regex");
            assert("thumbnail_size"@.len() != "title_clean_regex"@.len());
            assert("thumbnail_size"@ != "title_clean_regex"@);
            reveal_strlit("max_upload_retries");
            assert("thumbnail_size"@.len() != "max_upload_retries"@.len());
            assert("thumbnail_size"@ != "max_upload_retries"@);
            reveal_strlit("disabled_uploaders");
            assert("thumbnail_size"@.len() != "disabled_uploaders"@.len());
            assert("thumbnail_size"@ != "disabled_uploaders"@);
        },
        ConfigKey::thumbnail_grid => {
            reveal_strlit("thumbnail_grid");
            reveal_strlit("monitors");
            assert("thumbnail_grid"@.len() != "monitors"@.len());
            assert("thumbnail_grid"@ != "monitors"@);
            reveal_strlit("min_stream_duration");
            assert("thumbnail_grid"@.len() != "min_stream_duration"@.len());
            assert("thumbnail_grid"@ != "min_stream_duration"@);
            reveal_strlit("stream_reconnect_delay");
            assert("thumbnail_grid"@.len() != "stream_reconnect_delay"@.len());
            assert("thumbnail_grid"@ != "stream_reconnect_delay"@);
            reveal_strlit("stream_metadata_refresh_interval");
            assert("thumbnail_grid"@.len() != "stream_metadata_refresh_interval"@.len());
            assert("thumbnail_grid"@ != "stream_metadata_refresh_interval"@);
            reveal_strlit("step_delay");
            assert("thumbnail_grid"@.len() != "step_delay"@.len());
            assert("thumbnail_grid"@ != "step_delay"@);
            reveal_strlit("fetch_interval");
            assert("thumbnail_grid"@[0] != "fetch_interval"@[0]);
            assert("thumbnail_grid"@ != "fetch_interval"@);
            reveal_strlit("video_quality");
            assert("thumbnail_grid"@.len() != "video_quality"@.len());
            assert("thumbnail_grid"@ != "video_quality"@);
            reveal_strlit("video_bitrate");
            assert("thumbnail_grid"@.len() != "video_bitrate"@.len());
            assert("thumbnail_grid"@ != "video_bitrate"@);
            reveal_strlit("max_bitrate");
            assert("thumbnail_grid"@.len() != "max_bitrate"@.len());
            assert("thumbnail_grid"@ != "max_bitrate"@);
            reveal_strlit("max_fps");
            assert("thumbnail_grid"@.len() != "max_fps"@.len());
            assert("thumbnail_grid"@ != "max_fps"@);
            reveal_strlit("title_clean_regex");
            assert("thumbnail_grid"@.len() != "title_clean_regex"@.len());
            assert("thumbnail_grid"@ != "title_clean_regex"@);
            reveal_strlit("max_upload_retries");
            assert("thumbnail_grid"@.len() != "max_upload_retries"@.len());
            assert("thumbnail_grid"@ != "max_upload_retries"@);
            reveal_strlit("disabled_uploaders");
            assert("thumbnail_grid"@.len() != "disabled_uploaders"@.len());
            assert("thumbnail_grid"@ != "disabled_uploaders"@);
            reveal_strlit("thumbnail_size");
            assert("thumbnail_grid"@[10] != "thumbnail_size"@[10]);
            assert("thumbnail_grid"@ != "thumbnail_size"@);
        },
        ConfigKey::discord_webhook_url => {
            reveal_strlit("discord_webhook_url");
            reveal_strlit("monitors");
            assert("discord_webhook_url"@.len() != "monitors"@.len());
            assert("discord_webhook_url"@ != "monitors"@);
            reveal_strlit("min_stream_duration");
            assert("discord_webhook_url"@[0] != "min_stream_duration"@[0]);
            assert("discord_webhook_url"@ != "min_stream_duration"@);
            reveal_strlit("stream_reconnect_delay");
            assert("discord_webhook_url"@.len() != "stream_reconnect_delay"@.len());
            assert("discord_webhook_url"@ != "stream_reconnect_delay"@);
            reveal_strlit("stream_metadata_refresh_interval");
            assert("discord_webhook_url"@.len() != "stream_metadata_refresh_interval"@.len());
            assert("discord_webhook_url"@ != "stream_metadata_refresh_interval"@);
            reveal_strlit("step_delay");
            assert("discord_webhook_url"@.len() != "step_delay"@.len());
            assert("discord_webhook_url"@ != "step_delay"@);
            reveal_strlit("fetch_interval");
            assert("discord_webhook_url"@.len() != "fetch_interval"@.len());
            assert("discord_webhook_url"@ != "fetch_interval"@);
            reveal_strlit("video_quality");
            assert("discord_webhook_url"@.len() != "video_quality"@.len());
            assert("discord_webhook_url"@ != "video_quality"@);
            reveal_strlit("video_bitrate");
            assert("discord_webhook_url"@.len() != "video_bitrate"@.len());
            assert("discord_webhook_url"@ != "video_bitrate"@);
            reveal_strlit("max_bitrate");
            assert("discord_webhook_url"@.len() != "max_bitrate"@.len());
            assert("discord_webhook_url"@ != "max_bitrate"@);
            reveal_strlit("max_fps");
            assert("discord_webhook_url"@.len() != "max_fps"@.len());
            assert("discord_webhook_url"@ != "max_fps"@);
            reveal_strlit("title_clean_regex");
            assert("discord_webhook_url"@.len() != "title_clean_regex"@.len());
            assert("discord_webhook_url"@ != "title_clean_regex"@);
            reveal_strlit("max_upload_retries");
            assert("discord_webhook_url"@.len() != "max_upload_retries"@.len());
            assert("discord_webhook_url"@ != "max_upload_retries"@);
            reveal_strlit("disabled_uploaders");
            assert("discord_webhook_url"@.len() != "disabled_uploaders"@.len());
            assert("discord_webhook_url"@ != "disabled_uploaders"@);
            reveal_strlit("thumbnail_size");
            assert("discord_webhook_url"@.len() != "thumbnail_size"@.len());
            assert("discord_webhook_url"@ != "thumbnail_size"@);
            reveal_strlit("thumbnail_grid");
            assert("discord_webhook_url"@.len() != "thumbnail_grid"@.len());
            assert("discord_webhook_url"@ != "thumbnail_grid"@);
        },
        ConfigKey::upload_complete_message_template => {
            reveal_strlit("upload_complete_message_template");
            reveal_strlit("monitors");
            assert("upload_complete_message_template"@.len() != "monitors"@.len());
            assert("upload_complete_message_template"@ != "monitors"@);
            reveal_strlit("min_stream_duration");
            assert("upload_complete_message_template"@.len() != "min_stream_duration"@.len());
            assert("upload_complete_message_template"@ != "min_stream_duration"@);
            reveal_strlit("stream_reconnect_delay");
            assert("upload_complete_message_template"@.len() != "stream_reconnect_delay"@.len());
            assert("upload_complete_message_template"@ != "stream_reconnect_delay"@);
            reveal_strlit("stream_metadata_refresh_interval");
            assert("upload_complete_message_template"@[0] != "stream_metadata_refresh_interval"@[0]);
            assert("upload_complete_message_template"@ != "stream_metadata_refresh_interval"@);
            reveal_strlit("step_delay");
            assert("upload_complete_message_template"@.len() != "step_delay"@.len());
            assert("upload_complete_message_template"@ != "step_delay"@);
            reveal_strlit("fetch_interval");
            assert("upload_complete_message_template"@.len() != "fetch_interval"@.len());
            assert("upload_complete_message_template"@ != "fetch_interval"@);
            reveal_strlit("video_quality");
            assert("upload_complete_message_template"@.len() != "video_quality"@.len());
            assert("upload_complete_message_template"@ != "video_quality"@);
            reveal_strlit("video_bitrate");
            assert("upload_complete_message_template"@.len() != "video_bitrate"@.len());
            assert("upload_complete_message_template"@ != "video_bitrate"@);
            reveal_strlit("max_bitrate");
            assert("upload_complete_message_template"@.len() != "max_bitrate"@.len());
            assert("upload_complete_message_template"@ != "max_bitrate"@);
            reveal_strlit("max_fps");
            assert("upload_complete_message_template"@.len() != "max_fps"@.len());
            assert("upload_complete_message_template"@ != "max_fps"@);
            reveal_strlit("title_clean_regex");
            assert("upload_complete_message_template"@.len() != "title_clean_regex"@.len());
            assert("upload_complete_message_template"@ != "title_clean_regex"@);
            reveal_strlit("max_upload_retries");
            assert("upload_complete_message_template"@.len() != "max_upload_retries"@.len());
            assert("upload_complete_message_template"@ != "max_upload_retries"@);
            reveal_strlit("disabled_uploaders");
            assert("upload_complete_message_template"@.len() != "disabled_uploaders"@.len());
            assert("upload_complete_message_template"@ != "disabled_uploaders"@);
            reveal_strlit("thumbnail_size");
            assert("upload_complete_message_template"@.len() != "thumbnail_size"@.len());
            assert("upload_complete_message_template"@ != "thumbnail_size"@);
            reveal_strlit("thumbnail_grid");
            assert("upload_complete_message_template"@.len() != "thumbnail_grid"@.len());
            assert("upload_complete_message_template"@ != "thumbnail_grid"@);
            reveal_strlit("discord_webhook_url");
            assert("upload_complete_message_template"@.len() != "discord_webhook_url"@.len());
            assert("upload_complete_message_template"@ != "discord_webhook_url"@);
        },
        ConfigKey::output_directory => {
            reveal_strlit("output_directory");
            reveal_strlit("monitors");
            assert("output_directory"@.len() != "monitors"@.len());
            assert("output_directory"@ != "monitors"@);
            reveal_strlit("min_stream_duration");
            assert("output_directory"@.len() != "min_stream_duration"@.len());
            assert("output_directory"@ != "min_stream_duration"@);
            reveal_strlit("stream_reconnect_delay");
            assert("output_directory"@.len() != "stream_reconnect_delay"@.len());
            assert("output_directory"@ != "stream_reconnect_delay"@);
            reveal_strlit("stream_metadata_refresh_interval");
            assert("output_directory"@.len() != "stream_metadata_refresh_interval"@.len());
            assert("output_directory"@ != "stream_metadata_refresh_interval"@);
            reveal_strlit("step_delay");
            assert("output_directory"@.len() != "step_delay"@.len());
            assert("output_directory"@ != "step_delay"@);
            reveal_strlit("fetch_interval");
            assert("output_directory"@.len() != "fetch_interval"@.len());
            assert("output_directory"@ != "fetch_interval"@);
            reveal_strlit("video_quality");
            assert("output_directory"@.len() != "video_quality"@.len());
            assert("output_directory"@ != "video_quality"@);
            reveal_strlit("video_bitrate");
            assert("output_directory"@.len() != "video_bitrate"@.len());
            assert("output_directory"@ != "video_bitrate"@);
            reveal_strlit("max_bitrate");
            assert("output_directory"@.len() != "max_bitrate"@.len());
            assert("output_directory"@ != "max_bitrate"@);
            reveal_strlit("max_fps");
            assert("output_directory"@.len() != "max_fps"@.len());
            assert("output_directory"@ != "max_fps"@);
            reveal_strlit("title_clean_regex");
            assert("output_directory"@.len() != "title_clean_regex"@.len());
            assert("output_directory"@ != "title_clean_regex"@);
            reveal_strlit("max_upload_retries");
            assert("output_directory"@.len() != "max_upload_retries"@.len());
            assert("output_directory"@ != "max_upload_retries"@);
            reveal_strlit("disabled_uploaders");
            assert("output_directory"@.len() != "disabled_uploaders"@.len());
            assert("output_directory"@ != "disabled_uploaders"@);
            reveal_strlit("thumbnail_size");
            assert("output_directory"@.len() != "thumbnail_size"@.len());
            assert("output_directory"@ != "thumbnail_size"@);
            reveal_strlit("thumbnail_grid");
            assert("output_directory"@.len() != "thumbnail_grid"@.len());
            assert("output_directory"@ != "thumbnail_grid"@);
            reveal_strlit("discord_webhook_url");
            assert("output_directory"@.len() != "discord_webhook_url"@.len());
            assert("output_directory"@ != "discord_webhook_url"@);
            reveal_strlit("upload_complete_message_template");
            assert("output_directory"@.len() != "upload_complete_message_template"@.len());
            assert("output_directory"@ != "upload_complete_message_template"@);
        },
        ConfigKey::min_free_space => {
            reveal_strlit("min_free_space");
            reveal_strlit("monitors");
            assert("min_free_space"@.len() != "monitors"@.len());
            assert("min_free_space"@ != "monitors"@);
            reveal_strlit("min_stream_duration");
            assert("min_free_space"@.len() != "min_stream_duration"@.len());
            assert("min_free_space"@ != "min_stream_duration"@);
            reveal_strlit("stream_reconnect_delay");
            assert("min_free_space"@.len() != "stream_reconnect_delay"@.len());
            assert("min_free_space"@ != "stream_reconnect_delay"@);
            reveal_strlit("stream_metadata_refresh_interval");
            assert("min_free_space"@.len() != "stream_metadata_refresh_interval"@.len());
            assert("min_free_space"@ != "stream_metadata_refresh_interval"@);
            reveal_strlit("step_delay");
            assert("min_free_space"@.len() != "step_delay"@.len());
            assert("min_free_space"@ != "step_delay"@);
            reveal_strlit("fetch_interval");
            assert("min_free_space"@[0] != "fetch_interval"@[0]);
            assert("min_free_space"@ != "fetch_interval"@);
            reveal_strlit("video_quality");
            assert("min_free_space"@.len() != "video_quality"@.len());
            assert("min_free_space"@ != "video_quality"@);
            reveal_strlit("video_bitrate");
            assert("min_free_space"@.len() != "video_bitrate"@.len());
            assert("min_free_space"@ != "video_bitrate"@);
            reveal_strlit("max_bitrate");
            assert("min_free_space"@.len() != "max_bitrate"@.len());
            assert("min_free_space"@ != "max_bitrate"@);
            reveal_strlit("max_fps");
            assert("min_free_space"@.len() != "max_fps"@.len());
            assert("min_free_space"@ != "max_fps"@);
            reveal_strlit("title_clean_regex");
            assert("min_free_space"@.len() != "title_clean_regex"@.len());
            assert("min_free_space"@ != "title_clean_regex"@);
            reveal_strlit("max_upload_retries");
            assert("min_free_space"@.len() != "max_upload_retries"@.len());
            assert("min_free_space"@ != "max_upload_retries"@);
            reveal_strlit("disabled_uploaders");
            assert("min_free_space"@.len() != "disabled_uploaders"@.len());
            assert("min_free_space"@ != "disabled_uploaders"@);
            reveal_strlit("thumbnail_size");
            assert("min_free_space"@[0] != "thumbnail_size"@[0]);
            assert("min_free_space"@ != "thumbnail_size"@);
            reveal_strlit("thumbnail_grid");
            assert("min_free_space"@[0] != "thumbnail_grid"@[0]);
            assert("min_free_space"@ != "thumbnail_grid"@);
            reveal_strlit("discord_webhook_url");
            assert("min_free_space"@.len() != "discord_webhook_url"@.len());
            assert("min_free_space"@ != "discord_webhook_url"@);
            reveal_strlit("upload_complete_message_template");
            assert("min_free_space"@.len() != "upload_complete_message_template"@.len());
            assert("min_free_space"@ != "upload_complete_message_template"@);
            reveal_strlit("output_directory");
            assert("min_free_space"@.len() != "output_directory"@.len());
            assert("min_free_space"@ != "output_directory"@);
        },
        ConfigKey::retention_max_age => {
            reveal_strlit("retention_max_age");
            reveal_strlit("monitors");
            assert("retention_max_age"@.len() != "monitors"@.len());
            assert("retention_max_age"@ != "monitors"@);
            reveal_strlit("min_stream_duration");
            assert("retention_max_age"@.len() != "min_stream_duration"@.len());
            assert("retention_max_age"@ != "min_stream_duration"@);
            reveal_strlit("stream_reconnect_delay");
            assert("retention_max_age"@.len() != "stream_reconnect_delay"@.len());
            assert("retention_max_age"@ != "stream_reconnect_delay"@);
            reveal_strlit("stream_metadata_refresh_interval");
            assert("retention_max_age"@.len() != "stream_metadata_refresh_interval"@.len());
            assert("retention_max_age"@ != "stream_metadata_refresh_interval"@);
            reveal_strlit("step_delay");
            assert("retention_max_age"@.len() != "step_delay"@.len());
            assert("retention_max_age"@ != "step_delay"@);
            reveal_strlit("fetch_interval");
            assert("retention_max_age"@.len() != "fetch_interval"@.len());
            assert("retention_max_age"@ != "fetch_interval"@);
            reveal_strlit("video_quality");
            assert("retention_max_age"@.len() != "video_quality"@.len());
            assert("retention_max_age"@ != "video_quality"@);
            reveal_strlit("video_bitrate");
            assert("retention_max_age"@.len() != "video_bitrate"@.len());
            assert("retention_max_age"@ != "video_bitrate"@);
            reveal_strlit("max_bitrate");
            assert("retention_max_age"@.len() != "max_bitrate"@.len());
            assert("retention_max_age"@ != "max_bitrate"@);
            reveal_strlit("max_fps");
            assert("retention_max_age"@.len() != "max_fps"@.len());
            assert("retention_max_age"@ != "max_fps"@);
            reveal_strlit("title_clean_regex");
            assert("retention_max_age"@[0] != "title_clean_regex"@[0]);
            assert("retention_max_age"@ != "title_clean_regex"@);
            reveal_strlit("max_upload_retries");
            assert("retention_max_age"@.len() != "max_upload_retries"@.len());
            assert("retention_max_age"@ != "max_upload_retries"@);
            reveal_strlit("disabled_uploaders");
            assert("retention_max_age"@.len() != "disabled_uploaders"@.len());
            assert("retention_max_age"@ != "disabled_uploaders"@);
            reveal_strlit("thumbnail_size");
            assert("retention_max_age"@.len() != "thumbnail_size"@.len());
            assert("retention_max_age"@ != "thumbnail_size"@);
            reveal_strlit("thumbnail_grid");
            assert("retention_max_age"@.len() != "thumbnail_grid"@.len());
            assert("retention_max_age"@ != "thumbnail_grid"@);
            reveal_strlit("discord_webhook_url");
            assert("retention_max_age"@.len() != "discord_webhook_url"@.len());
            assert("retention_max_age"@ != "discord_webhook_url"@);
            reveal_strlit("upload_complete_message_template");
            assert("retention_max_age"@.len() != "upload_complete_message_template"@.len());
            assert("retention_max_age"@ != "upload_complete_message_template"@);
            reveal_strlit("output_directory");
            assert("retention_max_age"@.len() != "output_directory"@.len());
            assert("retention_max_age"@ != "output_directory"@);
            reveal_strlit("min_free_space");
            assert("retention_max_age"@.len() != "min_free_space"@.len());
            assert("retention_max_age"@ != "min_free_space"@);
        },
        ConfigKey::retention_keep_latest_per_user => {
            reveal_strlit("retention_keep_latest_per_user");
            reveal_strlit("monitors");
            assert("retention_keep_latest_per_user"@.len() != "monitors"@.len());
            assert("retention_keep_latest_per_user"@ != "monitors"@);
            reveal_strlit("min_stream_duration");
            assert("retention_keep_latest_per_user"@.len() != "min_stream_duration"@.len());
            assert("retention_keep_latest_per_user"@ != "min_stream_duration"@);
            reveal_strlit("stream_reconnect_delay");
            assert("retention_keep_latest_per_user"@.len() != "stream_reconnect_delay"@.len());
            assert("retention_keep_latest_per_user"@ != "stream_reconnect_delay"@);
            reveal_strlit("stream_metadata_refresh_interval");
            assert("retention_keep_latest_per_user"@.len() != "stream_metadata_refresh_interval"@.len());
            assert("retention_keep_latest_per_user"@ != "stream_metadata_refresh_interval"@);
            reveal_strlit("step_delay");
            assert("retention_keep_latest_per_user"@.len() != "step_delay"@.len());
            assert("retention_keep_latest_per_user"@ != "step_delay"@);
            reveal_strlit("fetch_interval");
            assert("retention_keep_latest_per_user"@.len() != "fetch_interval"@.len());
            assert("retention_keep_latest_per_user"@ != "fetch_interval"@);
            reveal_strlit("video_quality");
            assert("retention_keep_latest_per_user"@.len() != "video_quality"@.len());
            assert("retention_keep_latest_per_user"@ != "video_quality"@);
            reveal_strlit("video_bitrate");
            assert("retention_keep_latest_per_user"@.len() != "video_bitrate"@.len());
            assert("retention_keep_latest_per_user"@ != "video_bitrate"@);
            reveal_strlit("max_bitrate");
            assert("retention_keep_latest_per_user"@.len() != "max_bitrate"@.len());
            assert("retention_keep_latest_per_user"@ != "max_bitrate"@);
            reveal_strlit("max_fps");
            assert("retention_keep_latest_per_user"@.len() != "max_fps"@.len());
            assert("retention_keep_latest_per_user"@ != "max_fps"@);
            reveal_strlit("title_clean_regex");
            assert("retention_keep_latest_per_user"@.len() != "title_clean_regex"@.len());
            assert("retention_keep_latest_per_user"@ != "title_clean_regex"@);
            reveal_strlit("max_upload_retries");
            assert("retention_keep_latest_per_user"@.len() != "max_upload_retries"@.len());
            assert("retention_keep_latest_per_user"@ != "max_upload_retries"@);
            reveal_strlit("disabled_uploaders");
            assert("retention_keep_latest_per_user"@.len() != "disabled_uploaders"@.len());
            assert("retention_keep_latest_per_user"@ != "disabled_uploaders"@);
            reveal_strlit("thumbnail_size");
            assert("retention_keep_latest_per_user"@.len() != "thumbnail_size"@.len());
            assert("retention_keep_latest_per_user"@ != "thumbnail_size"@);
            reveal_strlit("thumbnail_grid");
            assert("retention_keep_latest_per_user"@.len() != "thumbnail_grid"@.len());
            assert("retention_keep_latest_per_user"@ != "thumbnail_grid"@);
            reveal_strlit("discord_webhook_url");
            assert("retention_keep_latest_per_user"@.len() != "discord_webhook_url"@.len());
            assert("retention_keep_latest_per_user"@ != "discord_webhook_url"@);
            reveal_strlit("upload_complete_message_template");
            assert("retention_keep_latest_per_user"@.len() != "upload_complete_message_template"@.len());
            assert("retention_keep_latest_per_user"@ != "upload_complete_message_template"@);
            reveal_strlit("output_directory");
            assert("retention_keep_latest_per_user"@.len() != "output_directory"@.len());
            assert("retention_keep_latest_per_user"@ != "output_directory"@);
            reveal_strlit("min_free_space");
            assert("retention_keep_latest_per_user"@.len() != "min_free_space"@.len());
            assert("retention_keep_latest_per_user"@ != "min_free_space"@);
            reveal_strlit("retention_max_age");
            assert("retention_keep_latest_per_user"@.len() != "retention_max_age"@.len());
            assert("retention_keep_latest_per_user"@ != "retention_max_age"@);
        },
    }
}

proof fn lemma_number_text_clears(n: u32)
    ensures
        !is_none_word(dec(n as nat)),
        parse_u32(dec(n as nat)) == Some(n),
{
    lemma_dec_digits(n as nat);
    reveal_strlit("none");
    let d = dec(n as nat);
    assert(all_digits(d));
    assert('0' <= d[0] <= '9');
    assert(lower_seq(d)[0] == lower(d[0]));
    assert(lower_seq("none"@)[0] == 'n');
    assert(lower_seq(d) != lower_seq("none"@));
}

/// Setting a number, text or list setting (or one without a default) to the text
/// its default is shown as stores nothing, so the default keeps applying.
pub proof fn lemma_default_text_clears(k: ConfigKey)
    requires
        k != ConfigKey::step_delay,
        k != ConfigKey::fetch_interval,
        k != ConfigKey::min_free_space,
    ensures
        parse_setting(k, default_text(k)) == Ok::<Stored, Seq<char>>(cleared(k)),
{
    reveal_strlit("none");
    reveal_strlit("320x180");
    reveal_strlit("3x3");
    reveal_strlit("./recordings");
    assert(lower_seq("320x180"@).len() != lower_seq("none"@).len());
    assert(lower_seq("3x3"@).len() != lower_seq("none"@).len());
    assert(lower_seq("./recordings"@).len() != lower_seq("none"@).len());
    lemma_number_text_clears(26);
    lemma_number_text_clears(3);
}

} // verus!
