use vstd::prelude::*;
use crate::config::types::{opt_list, opt_text, ConfigValidator};
use crate::pattern::{regex_compile_error, regex_error};
use crate::stream::postprocess::thumb::{parse_thumbnail_string, thumbnail_pair};
use crate::strings::{concat2, concat3, svec};
use crate::text::{
    all_digits, chars_of, copy_range, digits_value, eq_lit, count_char, count_char_exec,
    extend_chars, find_char, index_of, is_digit, lead_count, lemma_index_of, lemma_index_of_unique,
    lemma_lead_count, lower_chars, lower_seq, starts_with, starts_with_exec, trim, trim_chars,
};
use crate::types::duration::{is_num_char, num_pred, number_digits, DurationValue};
use crate::arith::pow10;
use crate::decimal::{digits_below_double_overflow, digits_times_pow2_exceed};
use vstd::arithmetic::power2::pow2;

verus! {

/// Quality targets run from 1 to 51.
pub struct VideoQuality;

/// A thumbnail size in `WIDTHxHEIGHT` form.
pub struct ThumbnailSize;

/// A thumbnail grid in `COLSxROWS` form.
pub struct ThumbnailGrid;

/// An ffmpeg bitrate such as `2500k`, `6M` or `2.5Mi`.
pub struct FfmpegBitrate;

/// A number above zero.
pub struct PositiveU32;

/// A duration above zero.
pub struct PositiveDuration;

/// An `http://` or `https://` URL.
pub struct Url;

/// A list of regular expressions that all compile.
pub struct RegexList;

/// The verdict on a quality target.
pub open spec fn video_quality_check(v: Option<u32>) -> Result<(), Seq<char>> {
    match v {
        None => Ok(()),
        Some(q) => if 1 <= q <= 51 {
            Ok(())
        } else {
            Err("video quality must be between 1 and 51"@)
        },
    }
}

/// The verdict on a pair setting such as a thumbnail size or grid.
pub open spec fn thumbnail_pair_check(v: Option<Seq<char>>, label: Seq<char>, hint: Seq<char>) -> Result<
    (),
    Seq<char>,
> {
    match v {
        None => Ok(()),
        Some(t) => match thumbnail_pair(t) {
            None => Err(label + " must use "@ + hint + " format"@),
            Some((a, b)) => if a == 0 || b == 0 {
                Err(label + " values must be greater than zero"@)
            } else {
                Ok(())
            },
        },
    }
}

/// Whether a bitrate number, read as the nearest double-precision float, is finite
/// and above zero: its decimal value exceeds `2^-1075`, at or below which the
/// nearest double is 0, and stays below `2^1024 - 2^970`, from which on it is
/// infinite.
pub open spec fn bitrate_in_range(number: Seq<char>) -> bool {
    let (digits, f) = number_digits(number);
    &&& digits_value(digits) * pow2(1075) > pow10(f)
    &&& digits_value(digits) < (pow2(1024) - pow2(970)) * pow10(f)
}

/// The bitrate suffixes ffmpeg takes, in lower case.
pub open spec fn bitrate_suffix_ok(s: Seq<char>) -> bool {
    s == ""@ || s == "k"@ || s == "m"@ || s == "g"@ || s == "ki"@ || s == "mi"@ || s == "gi"@
}

/// The verdict on a bitrate text: its leading digits and points form the number,
/// which must be a whole number or a decimal above zero, and the rest a suffix.
pub open spec fn bitrate_check(v: Seq<char>) -> Result<(), Seq<char>> {
    let b = trim(v);
    let k = lead_count(b, num_pred());
    let number = b.take(k as int);
    let suffix = b.skip(k as int);
    if b.len() == 0 {
        Err("bitrate cannot be empty; use 'none' to clear the setting"@)
    } else if number.len() == 0 {
        Err("bitrate must start with a number, e.g. 2500k or 6M"@)
    } else if number[0] == '.' || number.last() == '.' {
        Err("bitrate number must be a whole number or decimal like 2.5M"@)
    } else if count_char(number, '.') > 1 {
        Err("bitrate number must contain at most one decimal point"@)
    } else if !bitrate_in_range(number) {
        Err("bitrate must be greater than zero"@)
    } else if bitrate_suffix_ok(lower_seq(suffix)) {
        Ok(())
    } else {
        Err("bitrate must use an ffmpeg-style suffix like 2500k, 6M, or 2.5Mi"@)
    }
}

/// A text holding `c` at one place holds it at least once.
proof fn lemma_count_one(s: Seq<char>, c: char, i: int)
    requires
        0 <= i < s.len(),
        s[i] == c,
    ensures
        count_char(s, c) >= 1,
    decreases s.len(),
{
    if i < s.len() - 1 {
        assert(s.drop_last()[i] == c);
        lemma_count_one(s.drop_last(), c, i);
    }
}

/// A text holding `c` at two places holds it at least twice.
proof fn lemma_count_two(s: Seq<char>, c: char, i: int, j: int)
    requires
        0 <= i < j < s.len(),
        s[i] == c,
        s[j] == c,
    ensures
        count_char(s, c) >= 2,
    decreases s.len(),
{
    assert(s.drop_last()[i] == c);
    if j == s.len() - 1 {
        lemma_count_one(s.drop_last(), c, i);
    } else {
        assert(s.drop_last()[j] == c);
        lemma_count_two(s.drop_last(), c, i, j);
    }
}

/// The verdict on an optional bitrate.
pub open spec fn optional_bitrate_check(v: Option<Seq<char>>) -> Result<(), Seq<char>> {
    match v {
        None => Ok(()),
        Some(t) => bitrate_check(t),
    }
}

/// The verdict on a number that must be above zero.
pub open spec fn positive_check(v: Option<u32>) -> Result<(), Seq<char>> {
    match v {
        Some(n) => if n == 0 {
            Err("value must be greater than zero"@)
        } else {
            Ok(())
        },
        None => Ok(()),
    }
}

/// The verdict on a duration (in nanoseconds) that must be above zero.
pub open spec fn positive_duration_check(v: Option<nat>) -> Result<(), Seq<char>> {
    match v {
        Some(n) => if n == 0 {
            Err("value must be greater than zero"@)
        } else {
            Ok(())
        },
        None => Ok(()),
    }
}

/// The verdict on a URL.
pub open spec fn url_check(v: Option<Seq<char>>) -> Result<(), Seq<char>> {
    match v {
        Some(u) => if starts_with(u, "https://"@) || starts_with(u, "http://"@) {
            Ok(())
        } else {
            Err("URL must start with http:// or https://"@)
        },
        None => Ok(()),
    }
}

/// The verdict on a list of regular expressions: the error of the first that does
/// not compile.
pub open spec fn regex_list_check(items: Seq<Seq<char>>) -> Result<(), Seq<char>>
    decreases items.len(),
{
    if items.len() == 0 {
        Ok(())
    } else {
        match regex_compile_error(items[0]) {
            Some(e) => Err("Invalid regular expression: "@ + e),
            None => regex_list_check(items.drop_first()),
        }
    }
}

/// The verdict on an optional list of regular expressions.
pub open spec fn optional_regex_list_check(v: Option<Seq<Seq<char>>>) -> Result<(), Seq<char>> {
    match v {
        Some(items) => regex_list_check(items),
        None => Ok(()),
    }
}

/// Whether a validator's result is the verdict `check`, its error text included.
pub open spec fn agrees(r: Result<(), String>, check: Result<(), Seq<char>>) -> bool {
    match check {
        Ok(()) => r is Ok,
        Err(e) => r matches Err(m) && m@ == e,
    }
}

/// The quality validator accepts exactly the targets 1 to 51 (and an unset value);
/// any other target is refused with the range in the message.
pub proof fn lemma_video_quality_range(q: u32)
    ensures
        video_quality_check(Some(q)) is Ok <==> 1 <= q && q <= 51,
        !(1 <= q && q <= 51) ==> video_quality_check(Some(q)) == Err::<(), Seq<char>>(
            "video quality must be between 1 and 51"@,
        ),
        video_quality_check(None) is Ok,
{
}

impl ConfigValidator<Option<u32>> for VideoQuality {
    fn validate(value: &Option<u32>) -> (r: Result<(), String>)
        ensures
            agrees(r, video_quality_check(*value)),
    {
        match value {
            None => Ok(()),
            Some(q) => if 1 <= *q && *q <= 51 {
                Ok(())
            } else {
                Err("video quality must be between 1 and 51".to_owned())
            },
        }
    }
}

fn validate_thumbnail_pair(value: &Option<String>, label: &str, format_hint: &str) -> (r: Result<
    (),
    String,
>)
    ensures
        agrees(r, thumbnail_pair_check(opt_text(*value), label@, format_hint@)),
{
    let text = match value {
        Some(t) => t,
        None => return Ok(()),
    };
    match parse_thumbnail_string(text.as_str()) {
        None => {
            let head = concat3(label, " must use ", format_hint);
            Err(concat2(head.as_str(), " format"))
        },
        Some((first, second)) => if first == 0 || second == 0 {
            Err(concat2(label, " values must be greater than zero"))
        } else {
            Ok(())
        },
    }
}

impl ConfigValidator<Option<String>> for ThumbnailSize {
    fn validate(value: &Option<String>) -> (r: Result<(), String>)
        ensures
            agrees(r, thumbnail_pair_check(opt_text(*value), "thumbnail size"@, "WIDTHxHEIGHT"@)),
    {
        validate_thumbnail_pair(value, "thumbnail size", "WIDTHxHEIGHT")
    }
}

impl ConfigValidator<Option<String>> for ThumbnailGrid {
    fn validate(value: &Option<String>) -> (r: Result<(), String>)
        ensures
            agrees(r, thumbnail_pair_check(opt_text(*value), "thumbnail grid"@, "COLSxROWS"@)),
    {
        validate_thumbnail_pair(value, "thumbnail grid", "COLSxROWS")
    }
}

/// Whether a bitrate number (digits with one inner point at most) reads as a
/// finite double above zero.
fn bitrate_number_in_range(number: &Vec<char>) -> (b: bool)
    requires
        number@.len() > 0,
        forall|j: int| 0 <= j < number@.len() ==> #[trigger] is_num_char(number@[j]),
        count_char(number@, '.') <= 1,
    ensures
        b == bitrate_in_range(number@),
{
    let n = number.len();
    proof {
        lemma_index_of(number@, '.');
    }
    let (digits, f): (Vec<char>, usize) = match find_char(number.as_slice(), '.', 0) {
        None => {
            proof {
                lemma_index_of_unique(number@, '.', -1);
                assert(number@.take(n as int) =~= number@);
            }
            (copy_range(number.as_slice(), 0, n), 0)
        },
        Some(dot) => {
            proof {
                lemma_index_of_unique(number@, '.', dot as int);
            }
            let mut d = copy_range(number.as_slice(), 0, dot);
            let rest = copy_range(number.as_slice(), dot + 1, n);
            extend_chars(&mut d, rest.as_slice());
            proof {
                assert(number@.subrange(0, dot as int) =~= number@.take(dot as int));
                assert(number@.subrange(dot + 1, n as int) =~= number@.skip(dot + 1));
            }
            (d, n - dot - 1)
        },
    };
    proof {
        let dot = index_of(number@, '.');
        assert(number_digits(number@) == (digits@, f as nat));
        assert forall|j: int| 0 <= j < digits@.len() implies is_digit(#[trigger] digits@[j]) by {
            if dot < 0 {
                assert(digits@[j] == number@[j]);
                assert(is_num_char(number@[j]));
            } else if j < dot {
                assert(digits@[j] == number@[j]);
                assert(is_num_char(number@[j]));
            } else {
                let k = j + 1;
                assert(digits@[j] == number@[k]);
                assert(is_num_char(number@[k]));
                if number@[k] == '.' {
                    lemma_count_two(number@, '.', dot, k);
                }
            }
        }
        assert(all_digits(digits@));
    }
    digits_times_pow2_exceed(digits.as_slice(), 1075, f) && digits_below_double_overflow(
        digits.as_slice(),
        f,
    )
}

fn check_bitrate(value: &str) -> (r: Result<(), String>)
    ensures
        agrees(r, bitrate_check(value@)),
{
    let all = chars_of(value);
    let b = trim_chars(all.as_slice());
    if b.len() == 0 {
        return Err("bitrate cannot be empty; use 'none' to clear the setting".to_owned());
    }
    let mut k: usize = 0;
    while k < b.len() && (crate::text::is_digit_exec(b[k]) || b[k] == '.')
        invariant
            k <= b@.len(),
            forall|j: int| 0 <= j < k ==> #[trigger] is_num_char(b@[j]),
        decreases b@.len() - k,
    {
        k = k + 1;
    }
    proof {
        assert forall|j: int| 0 <= j < k implies (num_pred())(b@[j]) by {
            assert(is_num_char(b@[j]));
        }
        lemma_lead_count(b@, num_pred(), k as int);
    }
    let number = copy_range(b.as_slice(), 0, k);
    let suffix = copy_range(b.as_slice(), k, b.len());
    proof {
        assert(number@ == b@.take(k as int));
        assert(suffix@ == b@.skip(k as int));
    }
    if number.len() == 0 {
        return Err("bitrate must start with a number, e.g. 2500k or 6M".to_owned());
    }
    if number[0] == '.' || number[number.len() - 1] == '.' {
        return Err("bitrate number must be a whole number or decimal like 2.5M".to_owned());
    }
    if count_char_exec(number.as_slice(), '.') > 1 {
        return Err("bitrate number must contain at most one decimal point".to_owned());
    }
    let in_range = bitrate_number_in_range(&number);
    if !in_range {
        return Err("bitrate must be greater than zero".to_owned());
    }
    let lowered = lower_chars(suffix.as_slice());
    let s = lowered.as_slice();
    if eq_lit(s, "") || eq_lit(s, "k") || eq_lit(s, "m") || eq_lit(s, "g") || eq_lit(s, "ki")
        || eq_lit(s, "mi") || eq_lit(s, "gi") {
        Ok(())
    } else {
        Err("bitrate must use an ffmpeg-style suffix like 2500k, 6M, or 2.5Mi".to_owned())
    }
}

impl ConfigValidator<Option<String>> for FfmpegBitrate {
    fn validate(value: &Option<String>) -> (r: Result<(), String>)
        ensures
            agrees(r, optional_bitrate_check(opt_text(*value))),
    {
        match value {
            None => Ok(()),
            Some(t) => check_bitrate(t.as_str()),
        }
    }
}

impl ConfigValidator<Option<u32>> for PositiveU32 {
    fn validate(value: &Option<u32>) -> (r: Result<(), String>)
        ensures
            agrees(r, positive_check(*value)),
    {
        match value {
            Some(n) => if *n == 0 {
                Err("value must be greater than zero".to_owned())
            } else {
                Ok(())
            },
            None => Ok(()),
        }
    }
}

impl ConfigValidator<Option<DurationValue>> for PositiveDuration {
    fn validate(value: &Option<DurationValue>) -> (r: Result<(), String>)
        ensures
            agrees(
                r,
                positive_duration_check(
                    match *value {
                        Some(d) => Some(d@),
                        None => None,
                    },
                ),
            ),
    {
        match value {
            Some(d) => if d.is_zero() {
                Err("value must be greater than zero".to_owned())
            } else {
                Ok(())
            },
            None => Ok(()),
        }
    }
}

impl ConfigValidator<Option<String>> for Url {
    fn validate(value: &Option<String>) -> (r: Result<(), String>)
        ensures
            agrees(r, url_check(opt_text(*value))),
    {
        match value {
            Some(u) => {
                let c = chars_of(u.as_str());
                if starts_with_exec(c.as_slice(), chars_of("https://").as_slice())
                    || starts_with_exec(c.as_slice(), chars_of("http://").as_slice()) {
                    Ok(())
                } else {
                    Err("URL must start with http:// or https://".to_owned())
                }
            },
            None => Ok(()),
        }
    }
}

impl ConfigValidator<Option<Vec<String>>> for RegexList {
    fn validate(value: &Option<Vec<String>>) -> (r: Result<(), String>)
        ensures
            agrees(r, optional_regex_list_check(opt_list(*value))),
    {
        let items = match value {
            Some(v) => v,
            None => return Ok(()),
        };
        let mut i: usize = 0;
        assert(svec(items@).skip(0) == svec(items@));
        assert(opt_list(*value) == Some(svec(items@)));
        while i < items.len()
            invariant
                i <= items@.len(),
                opt_list(*value) == Some(svec(items@)),
                regex_list_check(svec(items@).skip(i as int)) == regex_list_check(svec(items@)),
            decreases items@.len() - i,
        {
            let ghost rest = svec(items@).skip(i as int);
            assert(rest[0] == items@[i as int]@);
            assert(rest.drop_first() == svec(items@).skip(i + 1));
            match regex_error(items[i].as_str()) {
                Some(e) => {
                    assert(regex_list_check(rest) == Err::<(), Seq<char>>(
                        "Invalid regular expression: "@ + e@,
                    ));
                    let m = concat2("Invalid regular expression: ", e.as_str());
                    assert(optional_regex_list_check(opt_list(*value)) == regex_list_check(
                        svec(items@),
                    ));
                    return Err(m);
                },
                None => {},
            }
            i = i + 1;
        }
        assert(svec(items@).skip(i as int).len() == 0);
        Ok(())
    }
}

} // verus!
