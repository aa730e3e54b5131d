use vstd::prelude::*;
use crate::strings::{concat2, push_all, push_str, strings, svec, u64_string};
use crate::text::{
    chars_eq, chars_of, contains, contains_exec, dec, lemma_dec_digits, split, split_chars, string_from_chars, trim,
    trim_chars, views,
};
use crate::unicode::{to_lowercase, unicode_lower};

verus! {

/// How video is encoded while recording.
#[derive(Clone, Debug)]
pub enum VideoEncoding {
    /// Variable bitrate with a quality target (CRF/CQ; lower is better, 1 to 51).
    Quality(u32),
    /// Constant bitrate, such as `6M` or `5000k`.
    ConstantBitrate(String),
}

/// An ffmpeg hardware encoder and the options that select it.
#[derive(Clone, Debug)]
pub struct EncoderProfile {
    pub codec: String,
    pub options: Vec<String>,
}

impl EncoderProfile {
    pub fn new(codec: &str, options: Vec<String>) -> (p: Self)
        ensures
            p.codec@ == codec@,
            p.options == options,
    {
        EncoderProfile { codec: codec.to_owned(), options }
    }
}

/// The text shown for an encoding: `quality 23` or `constant bitrate 6M`.
pub open spec fn encoding_text(e: VideoEncoding) -> Seq<char> {
    match e {
        VideoEncoding::Quality(q) => "quality "@ + dec(q as nat),
        VideoEncoding::ConstantBitrate(b) => "constant bitrate "@ + b@,
    }
}

impl VideoEncoding {
    /// The text shown for the encoding: `quality 23` or `constant bitrate 6M`.
    pub fn describe(&self) -> (s: String)
        ensures
            s@ == encoding_text(*self),
    {
        match self {
            VideoEncoding::Quality(q) => {
                let n = u64_string(*q as u64);
                concat2("quality ", n.as_str())
            },
            VideoEncoding::ConstantBitrate(b) => concat2("constant bitrate ", b.as_str()),
        }
    }
}

/// The quality target held to 1..=51.
pub open spec fn clamp_quality(q: u32) -> u32 {
    if q < 1 {
        1
    } else if q > 51 {
        51
    } else {
        q
    }
}

/// VideoToolbox's quality percentage for a quality target: 1 maps to 100, 51 to 1.
pub open spec fn vt_percent(q: u32) -> u32 {
    (1 + ((51 - clamp_quality(q)) * 99) / 50) as u32
}

pub fn clamp_video_quality(video_quality: u32) -> (q: u32)
    ensures
        q == clamp_quality(video_quality),
        1 <= q <= 51,
{
    if video_quality < 1 {
        1
    } else if video_quality > 51 {
        51
    } else {
        video_quality
    }
}

pub fn videotoolbox_quality_percent(video_quality: u32) -> (p: u32)
    ensures
        p == vt_percent(video_quality),
        1 <= p <= 100,
{
    let clamped = clamp_video_quality(video_quality);
    1 + ((51 - clamped) * 99) / 50
}

/// Text of the clamped quality target.
pub open spec fn qtext(q: u32) -> Seq<char> {
    dec(clamp_quality(q) as nat)
}

pub open spec fn nvenc_rc(enc: VideoEncoding) -> Seq<Seq<char>> {
    match enc {
        VideoEncoding::Quality(q) => seq!["-rc"@, "vbr"@, "-cq"@, qtext(q), "-b:v"@, "0"@],
        VideoEncoding::ConstantBitrate(b) => seq!["-rc"@, "cbr"@, "-b:v"@, b@],
    }
}

pub open spec fn qsv_rate(enc: VideoEncoding) -> Seq<Seq<char>> {
    match enc {
        VideoEncoding::Quality(q) => seq!["-global_quality"@, qtext(q)],
        VideoEncoding::ConstantBitrate(b) => seq!["-b:v"@, b@],
    }
}

pub open spec fn vaapi_rc(enc: VideoEncoding) -> Seq<Seq<char>> {
    match enc {
        VideoEncoding::Quality(q) => seq!["-rc_mode"@, "QVBR"@, "-global_quality"@, qtext(q)],
        VideoEncoding::ConstantBitrate(b) => seq!["-rc_mode"@, "CBR"@, "-b:v"@, b@],
    }
}

pub open spec fn amf_rc(enc: VideoEncoding) -> Seq<Seq<char>> {
    match enc {
        VideoEncoding::Quality(q) => seq!["-rc"@, "qvbr"@, "-qvbr_quality_level"@, qtext(q)],
        VideoEncoding::ConstantBitrate(b) => seq!["-rc"@, "cbr"@, "-b:v"@, b@],
    }
}

pub open spec fn vt_rate(enc: VideoEncoding) -> Seq<Seq<char>> {
    match enc {
        VideoEncoding::Quality(q) => seq!["-global_quality"@, dec(vt_percent(q) as nat)],
        VideoEncoding::ConstantBitrate(b) => seq!["-b:v"@, b@],
    }
}

pub open spec fn omx_rate(enc: VideoEncoding) -> Seq<Seq<char>> {
    match enc {
        VideoEncoding::Quality(_) => Seq::empty(),
        VideoEncoding::ConstantBitrate(b) => seq!["-b:v"@, b@],
    }
}

/// The hardware encoders tried, in order of preference, with their options.
pub open spec fn hw_profiles(enc: VideoEncoding) -> Seq<(Seq<char>, Seq<Seq<char>>)> {
    seq![
        ("h264_nvenc"@, seq!["-c:v"@, "h264_nvenc"@, "-preset"@, "p4"@] + nvenc_rc(enc)),
        ("hevc_nvenc"@, seq!["-c:v"@, "hevc_nvenc"@, "-preset"@, "p4"@] + nvenc_rc(enc)),
        ("h264_qsv"@, seq!["-c:v"@, "h264_qsv"@, "-preset"@, "medium"@] + qsv_rate(enc)),
        ("hevc_qsv"@, seq!["-c:v"@, "hevc_qsv"@, "-preset"@, "medium"@] + qsv_rate(enc)),
        (
            "h264_vaapi"@,
            seq!["-vf"@, "format=nv12,hwupload"@, "-c:v"@, "h264_vaapi"@] + vaapi_rc(enc),
        ),
        (
            "hevc_vaapi"@,
            seq!["-vf"@, "format=nv12,hwupload"@, "-c:v"@, "hevc_vaapi"@] + vaapi_rc(enc),
        ),
        (
            "h264_amf"@,
            seq!["-c:v"@, "h264_amf"@, "-usage"@, "transcoding"@, "-quality"@, "quality"@]
                + amf_rc(enc),
        ),
        (
            "hevc_amf"@,
            seq!["-c:v"@, "hevc_amf"@, "-usage"@, "transcoding"@, "-quality"@, "quality"@]
                + amf_rc(enc),
        ),
        ("h264_videotoolbox"@, seq!["-c:v"@, "h264_videotoolbox"@] + vt_rate(enc)),
        ("h264_omx"@, seq!["-c:v"@, "h264_omx"@] + omx_rate(enc)),
    ]
}

pub open spec fn profiles_view(v: Seq<EncoderProfile>) -> Seq<(Seq<char>, Seq<Seq<char>>)> {
    v.map_values(|p: EncoderProfile| (p.codec@, svec(p.options@)))
}

fn rate_options(enc: &VideoEncoding, which: u8) -> (v: Vec<String>)
    requires
        which < 6,
    ensures
        svec(v@) == if which == 0 {
            nvenc_rc(*enc)
        } else if which == 1 {
            qsv_rate(*enc)
        } else if which == 2 {
            vaapi_rc(*enc)
        } else if which == 3 {
            amf_rc(*enc)
        } else if which == 4 {
            vt_rate(*enc)
        } else {
            omx_rate(*enc)
        },
{
    match enc {
        VideoEncoding::Quality(q) => {
            let mut v: Vec<String> = Vec::new();
            if which == 4 {
                let p = videotoolbox_quality_percent(*q);
                push_str(&mut v, "-global_quality");
                let t = u64_string(p as u64);
                push_str(&mut v, t.as_str());
                return v;
            }
            if which == 5 {
                return v;
            }
            let qt = u64_string(clamp_video_quality(*q) as u64);
            if which == 0 {
                push_str(&mut v, "-rc");
                push_str(&mut v, "vbr");
                push_str(&mut v, "-cq");
                push_str(&mut v, qt.as_str());
                push_str(&mut v, "-b:v");
                push_str(&mut v, "0");
            } else if which == 1 {
                push_str(&mut v, "-global_quality");
                push_str(&mut v, qt.as_str());
            } else if which == 2 {
                push_str(&mut v, "-rc_mode");
                push_str(&mut v, "QVBR");
                push_str(&mut v, "-global_quality");
                push_str(&mut v, qt.as_str());
            } else {
                push_str(&mut v, "-rc");
                push_str(&mut v, "qvbr");
                push_str(&mut v, "-qvbr_quality_level");
                push_str(&mut v, qt.as_str());
            }
            v
        },
        VideoEncoding::ConstantBitrate(b) => {
            let mut v: Vec<String> = Vec::new();
            if which == 0 || which == 3 {
                push_str(&mut v, "-rc");
                push_str(&mut v, "cbr");
            } else if which == 2 {
                push_str(&mut v, "-rc_mode");
                push_str(&mut v, "CBR");
            }
            push_str(&mut v, "-b:v");
            push_str(&mut v, b.as_str());
            v
        },
    }
}

fn opts2(a: &str, b: &str) -> (v: Vec<String>)
    ensures
        svec(v@) == seq![a@, b@],
{
    let mut v: Vec<String> = Vec::new();
    push_str(&mut v, a);
    push_str(&mut v, b);
    v
}

fn opts4(a: &str, b: &str, c: &str, d: &str) -> (v: Vec<String>)
    ensures
        svec(v@) == seq![a@, b@, c@, d@],
{
    let mut v = opts2(a, b);
    push_str(&mut v, c);
    push_str(&mut v, d);
    v
}

fn opts6(a: &str, b: &str, c: &str, d: &str, e: &str, f: &str) -> (v: Vec<String>)
    ensures
        svec(v@) == seq![a@, b@, c@, d@, e@, f@],
{
    let mut v = opts4(a, b, c, d);
    push_str(&mut v, e);
    push_str(&mut v, f);
    v
}

fn profile(codec: &str, head: Vec<String>, rate: &Vec<String>) -> (p: EncoderProfile)
    ensures
        p.codec@ == codec@,
        (p.codec@, svec(p.options@)) == (codec@, svec(head@) + svec(rate@)),
{
    let mut opts = head;
    push_all(&mut opts, rate);
    EncoderProfile::new(codec, opts)
}

/// Whether `a` is directly followed by `b` somewhere in `opts`.
pub open spec fn has_pair(opts: Seq<Seq<char>>, a: Seq<char>, b: Seq<char>) -> bool {
    exists|i: int| 0 <= i && i + 1 < opts.len() && #[trigger] opts[i] == a && opts[i + 1] == b
}

/// Both NVENC profiles (`h264_nvenc` first, `hevc_nvenc` second) carry the same
/// rate control after their codec and preset: for a quality target `-rc vbr`,
/// `-cq` with the target held to 1..=51, and `-b:v 0`; for a constant bitrate
/// `-rc cbr` and `-b:v` with the bitrate.
pub proof fn lemma_nvenc_rate_control(enc: VideoEncoding)
    ensures
        hw_profiles(enc)[0].0 == "h264_nvenc"@,
        hw_profiles(enc)[1].0 == "hevc_nvenc"@,
        hw_profiles(enc)[0].1.skip(4) == hw_profiles(enc)[1].1.skip(4),
        forall|k: int| 0 <= k < 2 ==> match enc {
            VideoEncoding::Quality(q) => {
                &&& has_pair(#[trigger] hw_profiles(enc)[k].1, "-rc"@, "vbr"@)
                &&& has_pair(hw_profiles(enc)[k].1, "-cq"@, dec(
                    (if q < 1 {
                        1
                    } else if q > 51 {
                        51
                    } else {
                        q
                    }) as nat,
                ))
                &&& has_pair(hw_profiles(enc)[k].1, "-b:v"@, "0"@)
            },
            VideoEncoding::ConstantBitrate(b) => {
                &&& has_pair(#[trigger] hw_profiles(enc)[k].1, "-rc"@, "cbr"@)
                &&& has_pair(hw_profiles(enc)[k].1, "-b:v"@, b@)
            },
        },
{
    let p = hw_profiles(enc);
    assert(p[0].1.skip(4) =~= nvenc_rc(enc));
    assert(p[1].1.skip(4) =~= nvenc_rc(enc));
    assert forall|k: int| 0 <= k < 2 implies match enc {
        VideoEncoding::Quality(q) => {
            &&& has_pair(#[trigger] hw_profiles(enc)[k].1, "-rc"@, "vbr"@)
            &&& has_pair(hw_profiles(enc)[k].1, "-cq"@, dec(
                (if q < 1 {
                    1
                } else if q > 51 {
                    51
                } else {
                    q
                }) as nat,
            ))
            &&& has_pair(hw_profiles(enc)[k].1, "-b:v"@, "0"@)
        },
        VideoEncoding::ConstantBitrate(b) => {
            &&& has_pair(#[trigger] hw_profiles(enc)[k].1, "-rc"@, "cbr"@)
            &&& has_pair(hw_profiles(enc)[k].1, "-b:v"@, b@)
        },
    } by {
        let o = p[k].1;
        match enc {
            VideoEncoding::Quality(q) => {
                assert(o[4] == "-rc"@ && o[5] == "vbr"@);
                assert(o[6] == "-cq"@ && o[7] == qtext(q));
                assert(o[8] == "-b:v"@ && o[9] == "0"@);
            },
            VideoEncoding::ConstantBitrate(b) => {
                assert(o[4] == "-rc"@ && o[5] == "cbr"@);
                assert(o[6] == "-b:v"@ && o[7] == b@);
            },
        }
    }
}

/// Every profile selects its own codec: its options hold `-c:v` directly followed
/// by the profile's codec name.
pub proof fn lemma_profiles_select_their_codec(enc: VideoEncoding, k: int)
    requires
        0 <= k < hw_profiles(enc).len(),
    ensures
        has_pair(hw_profiles(enc)[k].1, "-c:v"@, hw_profiles(enc)[k].0),
{
    let o = hw_profiles(enc)[k].1;
    if k == 4 || k == 5 {
        assert(o[2] == "-c:v"@ && o[3] == hw_profiles(enc)[k].0);
    } else {
        assert(o[0] == "-c:v"@ && o[1] == hw_profiles(enc)[k].0);
    }
}

/// Whether a codec is one whose quality flag is `-global_quality`: QSV, VAAPI or
/// VideoToolbox.
pub open spec fn takes_global_quality(codec: Seq<char>) -> bool {
    codec == "h264_qsv"@ || codec == "hevc_qsv"@ || codec == "h264_vaapi"@ || codec
        == "hevc_vaapi"@ || codec == "h264_videotoolbox"@
}

/// No profile other than the QSV, VAAPI and VideoToolbox ones holds the option
/// `-global_quality` (unless a constant bitrate is itself written so).
pub proof fn lemma_global_quality_only_where_taken(enc: VideoEncoding, k: int, i: int)
    requires
        0 <= k < hw_profiles(enc).len(),
        !takes_global_quality(hw_profiles(enc)[k].0),
        0 <= i < hw_profiles(enc)[k].1.len(),
        !(enc matches VideoEncoding::ConstantBitrate(b) && b@ == "-global_quality"@),
    ensures
        hw_profiles(enc)[k].1[i] != "-global_quality"@,
{
    reveal_strlit("-c:v");
    reveal_strlit("h264_nvenc");
    reveal_strlit("hevc_nvenc");
    reveal_strlit("-preset");
    reveal_strlit("p4");
    reveal_strlit("-rc");
    reveal_strlit("vbr");
    reveal_strlit("-cq");
    reveal_strlit("-b:v");
    reveal_strlit("0");
    reveal_strlit("cbr");
    reveal_strlit("h264_amf");
    reveal_strlit("hevc_amf");
    reveal_strlit("-usage");
    reveal_strlit("transcoding");
    reveal_strlit("-quality");
    reveal_strlit("quality");
    reveal_strlit("qvbr");
    reveal_strlit("-qvbr_quality_level");
    reveal_strlit("h264_omx");
    reveal_strlit("h264_qsv");
    reveal_strlit("hevc_qsv");
    reveal_strlit("medium");
    reveal_strlit("-global_quality");
    reveal_strlit("-vf");
    reveal_strlit("format=nv12,hwupload");
    reveal_strlit("h264_vaapi");
    reveal_strlit("hevc_vaapi");
    reveal_strlit("-rc_mode");
    reveal_strlit("QVBR");
    reveal_strlit("CBR");
    reveal_strlit("h264_videotoolbox");
    assert("-c:v"@.len() == 4);
    assert("h264_nvenc"@.len() == 10);
    assert("hevc_nvenc"@.len() == 10);
    assert("-preset"@.len() == 7);
    assert("p4"@.len() == 2);
    assert("-rc"@.len() == 3);
    assert("vbr"@.len() == 3);
    assert("-cq"@.len() == 3);
    assert("-b:v"@.len() == 4);
    assert("0"@.len() == 1);
    assert("cbr"@.len() == 3);
    assert("h264_amf"@.len() == 8);
    assert("hevc_amf"@.len() == 8);
    assert("-usage"@.len() == 6);
    assert("transcoding"@.len() == 11);
    assert("-quality"@.len() == 8);
    assert("quality"@.len() == 7);
    assert("qvbr"@.len() == 4);
    assert("-qvbr_quality_level"@.len() == 19);
    assert("h264_omx"@.len() == 8);
    assert("h264_qsv"@.len() == 8);
    assert("hevc_qsv"@.len() == 8);
    assert("medium"@.len() == 6);
    assert("-global_quality"@.len() == 15);
    assert("-vf"@.len() == 3);
    assert("format=nv12,hwupload"@.len() == 20);
    assert("h264_vaapi"@.len() == 10);
    assert("hevc_vaapi"@.len() == 10);
    assert("-rc_mode"@.len() == 8);
    assert("QVBR"@.len() == 4);
    assert("CBR"@.len() == 3);
    assert("h264_videotoolbox"@.len() == 17);
    let p = hw_profiles(enc);
    let o = p[k].1;
    if let VideoEncoding::Quality(q) = enc {
        lemma_dec_digits(clamp_quality(q) as nat);
        lemma_dec_digits(vt_percent(q) as nat);
    }
    if o[i] == "-global_quality"@ {
        assert(o[i][0] == '-');
        assert(k != 2 && k != 3 && k != 4 && k != 5 && k != 8);
        assert(o[i].len() == 15);
    }
}

/// The hardware encoder profiles, in order of preference: NVENC, QSV, VAAPI, AMF,
/// VideoToolbox, OMX.
pub fn build_hw_encoder_profiles(encoding: &VideoEncoding) -> (v: Vec<EncoderProfile>)
    ensures
        profiles_view(v@) == hw_profiles(*encoding),
{
    let nv = rate_options(encoding, 0);
    let qs = rate_options(encoding, 1);
    let va = rate_options(encoding, 2);
    let am = rate_options(encoding, 3);
    let vt = rate_options(encoding, 4);
    let om = rate_options(encoding, 5);
    let ghost want = hw_profiles(*encoding);
    let mut v: Vec<EncoderProfile> = Vec::new();
    v.push(profile("h264_nvenc", opts4("-c:v", "h264_nvenc", "-preset", "p4"), &nv));
    v.push(profile("hevc_nvenc", opts4("-c:v", "hevc_nvenc", "-preset", "p4"), &nv));
    v.push(profile("h264_qsv", opts4("-c:v", "h264_qsv", "-preset", "medium"), &qs));
    v.push(profile("hevc_qsv", opts4("-c:v", "hevc_qsv", "-preset", "medium"), &qs));
    v.push(
        profile("h264_vaapi", opts4("-vf", "format=nv12,hwupload", "-c:v", "h264_vaapi"), &va),
    );
    v.push(
        profile("hevc_vaapi", opts4("-vf", "format=nv12,hwupload", "-c:v", "hevc_vaapi"), &va),
    );
    v.push(
        profile(
            "h264_amf",
            opts6("-c:v", "h264_amf", "-usage", "transcoding", "-quality", "quality"),
            &am,
        ),
    );
    v.push(
        profile(
            "hevc_amf",
            opts6("-c:v", "hevc_amf", "-usage", "transcoding", "-quality", "quality"),
            &am,
        ),
    );
    v.push(profile("h264_videotoolbox", opts2("-c:v", "h264_videotoolbox"), &vt));
    v.push(profile("h264_omx", opts2("-c:v", "h264_omx"), &om));
    assert(v@.len() == want.len());
    assert forall|i: int| 0 <= i < want.len() implies profiles_view(v@)[i] == want[i] by {}
    assert(profiles_view(v@) =~= want);
    v
}

/// Options ffmpeg needs before its input when recording with `codec`.
pub open spec fn runtime_inputs(codec: Seq<char>) -> Seq<Seq<char>> {
    if codec == "h264_qsv"@ || codec == "hevc_qsv"@ {
        seq!["-hwaccel"@, "qsv"@, "-init_hw_device"@, "qsv=hw"@, "-filter_hw_device"@, "hw"@]
    } else if codec == "h264_nvenc"@ || codec == "hevc_nvenc"@ {
        seq!["-hwaccel"@, "cuda"@, "-hwaccel_output_format"@, "cuda"@]
    } else if codec == "h264_vaapi"@ || codec == "hevc_vaapi"@ {
        seq!["-vaapi_device"@, "/dev/dri/renderD128"@]
    } else {
        Seq::empty()
    }
}

/// Options ffmpeg needs before its input when probing `codec`.
pub open spec fn probe_inputs(codec: Seq<char>) -> Seq<Seq<char>> {
    if codec == "h264_vaapi"@ || codec == "hevc_vaapi"@ {
        seq!["-vaapi_device"@, "/dev/dri/renderD128"@]
    } else {
        Seq::empty()
    }
}

fn is_one_of(codec: &[char], a: &str, b: &str) -> (r: bool)
    ensures
        r == (codec@ == a@ || codec@ == b@),
{
    chars_eq(codec, chars_of(a).as_slice()) || chars_eq(codec, chars_of(b).as_slice())
}

pub fn runtime_input_options(codec: &str) -> (v: Vec<String>)
    ensures
        svec(v@) == runtime_inputs(codec@),
{
    let c = chars_of(codec);
    if is_one_of(c.as_slice(), "h264_qsv", "hevc_qsv") {
        strings(&["-hwaccel", "qsv", "-init_hw_device", "qsv=hw", "-filter_hw_device", "hw"])
    } else if is_one_of(c.as_slice(), "h264_nvenc", "hevc_nvenc") {
        strings(&["-hwaccel", "cuda", "-hwaccel_output_format", "cuda"])
    } else if is_one_of(c.as_slice(), "h264_vaapi", "hevc_vaapi") {
        strings(&["-vaapi_device", "/dev/dri/renderD128"])
    } else {
        Vec::new()
    }
}

pub fn probe_input_options(codec: &str) -> (v: Vec<String>)
    ensures
        svec(v@) == probe_inputs(codec@),
{
    let c = chars_of(codec);
    if is_one_of(c.as_slice(), "h264_vaapi", "hevc_vaapi") {
        strings(&["-vaapi_device", "/dev/dri/renderD128"])
    } else {
        Vec::new()
    }
}

/// The ffmpeg arguments for recording `playback_url` into `output_path`.
pub open spec fn ffmpeg_args(
    url: Seq<char>,
    output: Seq<char>,
    enc: VideoEncoding,
    hw: Option<(Seq<char>, Seq<Seq<char>>)>,
    max_bitrate: Option<Seq<char>>,
) -> Seq<Seq<char>> {
    let video = match hw {
        Some((codec, opts)) => runtime_inputs(codec) + seq!["-i"@, url] + opts,
        None => match enc {
            VideoEncoding::Quality(q) => seq![
                "-i"@,
                url,
                "-c:v"@,
                "libx264"@,
                "-preset"@,
                "veryfast"@,
                "-crf"@,
                qtext(q),
            ],
            VideoEncoding::ConstantBitrate(b) => seq![
                "-i"@,
                url,
                "-c:v"@,
                "libx264"@,
                "-preset"@,
                "veryfast"@,
                "-b:v"@,
                b@,
                "-maxrate"@,
                b@,
                "-bufsize"@,
                b@,
            ],
        },
    };
    let cap = match max_bitrate {
        Some(r) => seq!["-maxrate"@, r, "-bufsize"@, r],
        None => Seq::empty(),
    };
    seq!["-loglevel"@, "quiet"@] + video + cap + seq![
        "-c:a"@,
        "aac"@,
        "-b:a"@,
        "128k"@,
        output,
    ]
}

/// Builds the ffmpeg arguments for a recording: the hardware encoder when one is
/// given, else software x264 with a quality or constant bitrate; an optional bitrate
/// cap; AAC audio; the output path last.
pub fn build_ffmpeg_args(
    playback_url: &str,
    output_path: &str,
    encoding: &VideoEncoding,
    hw_encoder: Option<(String, Vec<String>)>,
    max_bitrate: Option<&str>,
) -> (v: Vec<String>)
    ensures
        svec(v@) == ffmpeg_args(
            playback_url@,
            output_path@,
            *encoding,
            match hw_encoder {
                Some((c, o)) => Some((c@, svec(o@))),
                None => None,
            },
            match max_bitrate {
                Some(r) => Some(r@),
                None => None,
            },
        ),
{
    let mut args: Vec<String> = Vec::new();
    push_str(&mut args, "-loglevel");
    push_str(&mut args, "quiet");
    match hw_encoder {
        Some((codec, opts)) => {
            let pre = runtime_input_options(codec.as_str());
            push_all(&mut args, &pre);
            push_str(&mut args, "-i");
            push_str(&mut args, playback_url);
            push_all(&mut args, &opts);
        },
        None => match encoding {
            VideoEncoding::Quality(q) => {
                let qt = u64_string(clamp_video_quality(*q) as u64);
                push_str(&mut args, "-i");
                push_str(&mut args, playback_url);
                push_str(&mut args, "-c:v");
                push_str(&mut args, "libx264");
                push_str(&mut args, "-preset");
                push_str(&mut args, "veryfast");
                push_str(&mut args, "-crf");
                push_str(&mut args, qt.as_str());
            },
            VideoEncoding::ConstantBitrate(b) => {
                push_str(&mut args, "-i");
                push_str(&mut args, playback_url);
                push_str(&mut args, "-c:v");
                push_str(&mut args, "libx264");
                push_str(&mut args, "-preset");
                push_str(&mut args, "veryfast");
                push_str(&mut args, "-b:v");
                push_str(&mut args, b.as_str());
                push_str(&mut args, "-maxrate");
                push_str(&mut args, b.as_str());
                push_str(&mut args, "-bufsize");
                push_str(&mut args, b.as_str());
            },
        },
    }
    if let Some(rate) = max_bitrate {
        push_str(&mut args, "-maxrate");
        push_str(&mut args, rate);
        push_str(&mut args, "-bufsize");
        push_str(&mut args, rate);
    }
    push_str(&mut args, "-c:a");
    push_str(&mut args, "aac");
    push_str(&mut args, "-b:a");
    push_str(&mut args, "128k");
    push_str(&mut args, output_path);
    assert(svec(args@) =~= ffmpeg_args(
        playback_url@,
        output_path@,
        *encoding,
        match hw_encoder {
            Some((c, o)) => Some((c@, svec(o@))),
            None => None,
        },
        match max_bitrate {
            Some(r) => Some(r@),
            None => None,
        },
    ));
    args
}


/// The arguments of the one-second test encode that checks that a hardware encoder
/// works on this machine.
pub open spec fn probe_args(codec: Seq<char>, options: Seq<Seq<char>>) -> Seq<Seq<char>> {
    seq!["-hide_banner"@, "-loglevel"@, "error"@] + probe_inputs(codec) + seq![
        "-f"@,
        "lavfi"@,
        "-i"@,
        "testsrc=duration=1:size=640x360:rate=30"@,
    ] + options + seq!["-t"@, "1"@, "-f"@, "null"@, "-"@]
}

/// Builds the arguments of the test encode for `profile`.
pub fn hw_probe_args(profile: &EncoderProfile) -> (v: Vec<String>)
    ensures
        svec(v@) == probe_args(profile.codec@, svec(profile.options@)),
{
    let mut v = strings(&["-hide_banner", "-loglevel", "error"]);
    let inputs = probe_input_options(profile.codec.as_str());
    push_all(&mut v, &inputs);
    let mid = strings(&["-f", "lavfi", "-i", "testsrc=duration=1:size=640x360:rate=30"]);
    push_all(&mut v, &mid);
    push_all(&mut v, &profile.options);
    let tail = strings(&["-t", "1", "-f", "null", "-"]);
    push_all(&mut v, &tail);
    v
}

/// The first line that is not blank, if any.
pub open spec fn first_nonblank(lines: Seq<Seq<char>>) -> Option<Seq<char>>
    decreases lines.len(),
{
    if lines.len() == 0 {
        None
    } else if trim(lines[0]).len() > 0 {
        Some(lines[0])
    } else {
        first_nonblank(lines.drop_first())
    }
}

/// A short reason for a failed test encode, read from ffmpeg's error output: a
/// known cause by its marker (case-insensitively), else the first line that is not
/// blank, trimmed, else `unknown error`.
pub open spec fn probe_reason(stderr: Seq<char>) -> Seq<char> {
    let s = unicode_lower(stderr);
    if contains(s, "cuda_error_no_device"@) || contains(s, "cuinit(0) failed"@) || contains(
        s,
        "no cuda"@,
    ) {
        "no CUDA-capable device"@
    } else if contains(s, "error creating a mfx session"@) || contains(s, "mfx"@) {
        "intel qsv: mfx session not available"@
    } else if contains(s, "dll amfrt64.dll failed to open"@) || contains(s, "amfrt64.dll"@) {
        "amd amf runtime not found"@
    } else if contains(s, "error while opening encoder"@) {
        "encoder failed to open (bad params or missing runtime)"@
    } else if contains(s, "nothing was written into output file"@) || contains(
        s,
        "received no packets"@,
    ) {
        "encoder produced no output packets"@
    } else {
        match first_nonblank(split(stderr, '\n')) {
            Some(l) => trim(l),
            None => "unknown error"@,
        }
    }
}

fn has(s: &[char], lit: &str) -> (r: bool)
    ensures
        r == contains(s@, lit@),
{
    contains_exec(s, chars_of(lit).as_slice())
}

/// Reads why a test encode failed from ffmpeg's error output.
pub fn probe_failure_reason(stderr: &str) -> (r: String)
    ensures
        r@ == probe_reason(stderr@),
{
    let lower = to_lowercase(stderr);
    let s = chars_of(lower.as_str());
    let t = s.as_slice();
    if has(t, "cuda_error_no_device") || has(t, "cuinit(0) failed") || has(t, "no cuda") {
        return "no CUDA-capable device".to_owned();
    }
    if has(t, "error creating a mfx session") || has(t, "mfx") {
        return "intel qsv: mfx session not available".to_owned();
    }
    if has(t, "dll amfrt64.dll failed to open") || has(t, "amfrt64.dll") {
        return "amd amf runtime not found".to_owned();
    }
    if has(t, "error while opening encoder") {
        return "encoder failed to open (bad params or missing runtime)".to_owned();
    }
    if has(t, "nothing was written into output file") || has(t, "received no packets") {
        return "encoder produced no output packets".to_owned();
    }
    let lines = split_chars(chars_of(stderr).as_slice(), '\n');
    let ghost all = views(lines@);
    assert(probe_reason(stderr@) == match first_nonblank(all) {
        Some(l) => trim(l),
        None => "unknown error"@,
    });
    assert(all.skip(0) =~= all);
    let mut i: usize = 0;
    while i < lines.len()
        invariant
            i <= lines@.len(),
            all == views(lines@),
            probe_reason(stderr@) == match first_nonblank(all) {
                Some(l) => trim(l),
                None => "unknown error"@,
            },
            first_nonblank(all) == first_nonblank(all.skip(i as int)),
        decreases lines@.len() - i,
    {
        let t = trim_chars(lines[i].as_slice());
        assert(all.skip(i as int).drop_first() =~= all.skip(i + 1));
        assert(all.skip(i as int)[0] == lines@[i as int]@);
        if t.len() > 0 {
            return string_from_chars(t.as_slice());
        }
        i = i + 1;
    }
    assert(all.skip(i as int).len() == 0);
    "unknown error".to_owned()
}

/// Whether a line of `ffmpeg -encoders` names a hardware encoder family.
pub open spec fn is_hw_line(line: Seq<char>) -> bool {
    let l = unicode_lower(line);
    contains(l, "nvenc"@) || contains(l, "qsv"@) || contains(l, "amf"@) || contains(l, "vaapi"@)
        || contains(l, "videotoolbox"@) || contains(l, "omx"@) || contains(l, "v4l2m2m"@)
}

/// The hardware-related lines of `ffmpeg -encoders` output, trimmed.
pub open spec fn hw_lines(lines: Seq<Seq<char>>) -> Seq<Seq<char>>
    decreases lines.len(),
{
    if lines.len() == 0 {
        Seq::empty()
    } else if is_hw_line(lines.last()) {
        hw_lines(lines.drop_last()).push(trim(lines.last()))
    } else {
        hw_lines(lines.drop_last())
    }
}

/// Picks the hardware-related lines out of `ffmpeg -encoders` output.
pub fn hw_encoder_lines(encoders_out: &str) -> (v: Vec<String>)
    ensures
        svec(v@) == hw_lines(split(encoders_out@, '\n')),
{
    let lines = split_chars(chars_of(encoders_out).as_slice(), '\n');
    let ghost all = views(lines@);
    let mut out: Vec<String> = Vec::new();
    let mut i: usize = 0;
    while i < lines.len()
        invariant
            i <= lines@.len(),
            all == views(lines@),
            svec(out@) == hw_lines(all.take(i as int)),
        decreases lines@.len() - i,
    {
        let line = string_from_chars(lines[i].as_slice());
        let lower = to_lowercase(line.as_str());
        let l = chars_of(lower.as_str());
        let t = l.as_slice();
        assert(all.take(i + 1).drop_last() =~= all.take(i as int));
        assert(all.take(i + 1).last() == all[i as int]);
        if has(t, "nvenc") || has(t, "qsv") || has(t, "amf") || has(t, "vaapi") || has(
            t,
            "videotoolbox",
        ) || has(t, "omx") || has(t, "v4l2m2m") {
            let trimmed = string_from_chars(trim_chars(lines[i].as_slice()).as_slice());
            let ghost before = svec(out@);
            out.push(trimmed);
            assert(svec(out@) =~= before.push(trimmed@));
        }
        i = i + 1;
    }
    assert(all.take(i as int) =~= all);
    out
}

/// The profiles whose encoder `ffmpeg -encoders` lists (its output read
/// case-insensitively), in order of preference.
pub open spec fn listed_profiles(
    profiles: Seq<(Seq<char>, Seq<Seq<char>>)>,
    listing: Seq<char>,
) -> Seq<(Seq<char>, Seq<Seq<char>>)>
    decreases profiles.len(),
{
    if profiles.len() == 0 {
        Seq::empty()
    } else if contains(listing, profiles.last().0) {
        listed_profiles(profiles.drop_last(), listing).push(profiles.last())
    } else {
        listed_profiles(profiles.drop_last(), listing)
    }
}

/// The hardware encoder profiles for `encoding` that this ffmpeg build lists, in
/// order of preference; the first of them that passes its test encode is used.
pub fn encoder_candidates(encoding: &VideoEncoding, encoders_out: &str) -> (v: Vec<EncoderProfile>)
    ensures
        profiles_view(v@) == listed_profiles(hw_profiles(*encoding), unicode_lower(encoders_out@)),
{
    let lower = to_lowercase(encoders_out);
    let listing = chars_of(lower.as_str());
    let profiles = build_hw_encoder_profiles(encoding);
    let ghost all = profiles_view(profiles@);
    let mut out: Vec<EncoderProfile> = Vec::new();
    let mut i: usize = 0;
    while i < profiles.len()
        invariant
            i <= profiles@.len(),
            all == profiles_view(profiles@),
            listing@ == unicode_lower(encoders_out@),
            profiles_view(out@) == listed_profiles(all.take(i as int), listing@),
        decreases profiles@.len() - i,
    {
        assert(all.take(i + 1).drop_last() =~= all.take(i as int));
        assert(all.take(i + 1).last() == all[i as int]);
        let codec = chars_of(profiles[i].codec.as_str());
        if contains_exec(listing.as_slice(), codec.as_slice()) {
            let mut options: Vec<String> = Vec::new();
            push_all(&mut options, &profiles[i].options);
            let p = EncoderProfile::new(profiles[i].codec.as_str(), options);
            let ghost before = profiles_view(out@);
            out.push(p);
            assert(profiles_view(out@) =~= before.push(all[i as int]));
        }
        i = i + 1;
    }
    assert(all.take(i as int) =~= all);
    out
}

} // verus!
