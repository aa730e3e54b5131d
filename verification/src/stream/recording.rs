use vstd::prelude::*;
use crate::config::types::opt_text;
use crate::config::Config;
use crate::stream::encoding::{build_ffmpeg_args, ffmpeg_args, VideoEncoding};
use crate::stream::types::StreamInfo;
use crate::strings::{concat3, concat4, svec};
use crate::utils::{slug, slugify};

verus! {

/// Whether `e` is the encoding that a quality target and an optional video bitrate
/// ask for: constant bitrate when a bitrate is set, else the quality target.
pub open spec fn encoding_for(e: VideoEncoding, quality: u32, bitrate: Option<Seq<char>>) -> bool {
    match e {
        VideoEncoding::Quality(q) => bitrate is None && q == quality,
        VideoEncoding::ConstantBitrate(b) => bitrate == Some(b@),
    }
}

/// The encoding for the given quality target and optional video bitrate.
pub fn recording_encoding(video_quality: u32, video_bitrate: Option<&str>) -> (e: VideoEncoding)
    ensures
        encoding_for(
            e,
            video_quality,
            match video_bitrate {
                Some(b) => Some(b@),
                None => None,
            },
        ),
{
    match video_bitrate {
        Some(bitrate) => VideoEncoding::ConstantBitrate(bitrate.to_owned()),
        None => VideoEncoding::Quality(video_quality),
    }
}

/// The directory of a user's recordings: the output directory, `/`, the user's slug.
pub open spec fn user_dir(output_dir: Seq<char>, username: Seq<char>) -> Seq<char> {
    output_dir + "/"@ + slug(username)
}

/// The directory that holds `username`'s recordings.
pub fn user_directory(output_dir: &str, username: &str) -> (s: String)
    ensures
        s@ == user_dir(output_dir@, username@),
{
    let user = slugify(username);
    concat3(output_dir, "/", user.as_str())
}

/// The file a recording is written to: in the user's directory, the user's slug, `_`,
/// the start time as `%Y-%m-%d_%H-%M-%S`, and `.mp4`.
pub fn build_output_path(output_dir: &str, username: &str, timestamp: &str) -> (s: String)
    ensures
        s@ == user_dir(output_dir@, username@) + "/"@ + slug(username@) + "_"@ + timestamp@
            + ".mp4"@,
{
    let dir = user_directory(output_dir, username);
    let user = slugify(username);
    let name = concat3(user.as_str(), "_", timestamp);
    let s = concat4(dir.as_str(), "/", name.as_str(), ".mp4");
    assert(s@ =~= user_dir(output_dir@, username@) + "/"@ + slug(username@) + "_"@ + timestamp@
        + ".mp4"@);
    s
}

impl Config {
    /// The encoding recordings use: the configured video bitrate as a constant
    /// bitrate, else the configured quality target.
    pub fn recording_encoding(&self) -> (e: VideoEncoding)
        ensures
            encoding_for(
                e,
                match self.video_quality {
                    Some(n) => n,
                    None => 26u32,
                },
                opt_text(self.video_bitrate),
            ),
    {
        recording_encoding(self.get_video_quality(), self.get_video_bitrate())
    }
}

/// The ffmpeg arguments for recording a stream into `output_path` with `encoding`,
/// on the hardware encoder when one was found, capped at the configured maximum
/// bitrate.
pub fn build_recording_args(
    config: &Config,
    stream_info: &StreamInfo,
    output_path: &str,
    encoding: &VideoEncoding,
    hw_encoder: Option<(String, Vec<String>)>,
) -> (v: Vec<String>)
    ensures
        svec(v@) == ffmpeg_args(
            stream_info.extracted.playback_url@,
            output_path@,
            *encoding,
            match hw_encoder {
                Some((c, o)) => Some((c@, svec(o@))),
                None => None,
            },
            opt_text(config.max_bitrate),
        ),
{
    build_ffmpeg_args(
        stream_info.extracted.playback_url.as_str(),
        output_path,
        encoding,
        hw_encoder,
        config.get_max_bitrate(),
    )
}

} // verus!
