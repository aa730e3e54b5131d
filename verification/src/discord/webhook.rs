use vstd::prelude::*;
use crate::text::{chars_of, contains, contains_exec, extend_chars, string_from_chars};

verus! {

/// A colour as Discord takes it: `0xRRGGBB`.
#[derive(Clone, Copy, Debug, PartialEq, Eq, Structural)]
pub struct DiscordColor(pub u32);

impl DiscordColor {
    /// The colour with the given red, green and blue parts.
    pub fn rgb(r: u8, g: u8, b: u8) -> (c: Self)
        ensures
            c.0 == r * 65536 + g * 256 + b,
    {
        let v: u32 = ((r as u32) << 16) | ((g as u32) << 8) | (b as u32);
        assert(v == r * 65536 + g * 256 + b) by (bit_vector)
            requires
                v == ((r as u32) << 16) | ((g as u32) << 8) | (b as u32),
        ;
        DiscordColor(v)
    }
}

/// A component of a Discord message.
#[derive(Debug)]
pub enum Component {
    Container(ContainerComponent),
    Group(GroupComponent),
    Text(TextComponent),
    Media(MediaComponent),
    Divider(DividerComponent),
}

/// A coloured box around other components.
#[derive(Debug)]
pub struct ContainerComponent {
    pub accent_color: DiscordColor,
    pub spoiler: bool,
    pub components: Vec<Component>,
}

/// Components shown together, with an optional accessory (typically a thumbnail).
#[derive(Debug)]
pub struct GroupComponent {
    pub components: Vec<Component>,
    pub accessory: Option<Box<Component>>,
}

/// A text block.
#[derive(Debug)]
pub struct TextComponent {
    pub content: String,
}

/// A separating line.
#[derive(Debug)]
pub struct DividerComponent {
    pub visible: bool,
    pub spacing: u32,
}

/// An image.
#[derive(Debug)]
pub struct MediaComponent {
    pub media: Media,
    pub description: Option<String>,
    pub spoiler: bool,
}

/// Where an image is.
#[derive(Debug)]
pub struct Media {
    pub url: String,
}

/// Discord's answer to a webhook call made with `wait`.
#[derive(Debug)]
pub struct Message {
    /// The channel of the message; the thread's id when a thread was created.
    pub channel_id: u64,
}

/// Who a webhook message appears to come from.
#[derive(Clone, Debug)]
pub struct Identity {
    pub username: String,
    pub avatar_url: Option<String>,
}

/// `url` with `key=value` appended to its query.
pub open spec fn with_query_param(url: Seq<char>, key: Seq<char>, value: Seq<char>) -> Seq<char> {
    url + (if contains(url, "?"@) {
        "&"@
    } else {
        "?"@
    }) + key + "="@ + value
}

/// Appends `key=value` to the URL's query, starting it with `?` when the URL has
/// none.
pub fn append_query_param(url: &mut String, key: &str, value: &str)
    ensures
        final(url)@ == with_query_param(old(url)@, key@, value@),
{
    let mut c = chars_of(url.as_str());
    let question = chars_of("?");
    if contains_exec(c.as_slice(), question.as_slice()) {
        extend_chars(&mut c, chars_of("&").as_slice());
    } else {
        extend_chars(&mut c, question.as_slice());
    }
    extend_chars(&mut c, chars_of(key).as_slice());
    extend_chars(&mut c, chars_of("=").as_slice());
    extend_chars(&mut c, chars_of(value).as_slice());
    *url = string_from_chars(c.as_slice());
}

} // verus!
