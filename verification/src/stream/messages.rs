use vstd::prelude::*;
use crate::config::types::opt_text;
use crate::discord::webhook::{
    Component, GroupComponent, Identity, Media, MediaComponent, TextComponent,
};
use crate::stream::types::StreamInfo;
use crate::strings::concat3;
use crate::text::{chars_of, starts_with, starts_with_exec, string_from_chars, trim, trim_chars};

verus! {

/// An avatar URL fit to show: the trimmed URL when it is `http://` or `https://`.
pub open spec fn safe_avatar(url: Option<Seq<char>>) -> Option<Seq<char>> {
    match url {
        Some(u) => if starts_with(trim(u), "http://"@) || starts_with(trim(u), "https://"@) {
            Some(trim(u))
        } else {
            None
        },
        None => None,
    }
}

/// Keeps an avatar URL only when, trimmed, it is an `http://` or `https://` URL.
pub fn sanitize_avatar_url(avatar_url: Option<String>) -> (r: Option<String>)
    ensures
        opt_text(r) == safe_avatar(opt_text(avatar_url)),
{
    match avatar_url {
        Some(url) => {
            let t = trim_chars(chars_of(url.as_str()).as_slice());
            if starts_with_exec(t.as_slice(), chars_of("http://").as_slice()) || starts_with_exec(
                t.as_slice(),
                chars_of("https://").as_slice(),
            ) {
                Some(string_from_chars(t.as_slice()))
            } else {
                None
            }
        },
        None => None,
    }
}

/// Whether a component is the image at `url`, without description or spoiler.
pub open spec fn is_media_of(c: Component, url: Seq<char>) -> bool {
    c matches Component::Media(m) && m.media.url@ == url && m.description is None && !m.spoiler
}

/// The avatar as an image component, when the URL is fit to show.
pub fn accessory_media_component(avatar_url: Option<String>) -> (r: Option<Box<Component>>)
    ensures
        match safe_avatar(opt_text(avatar_url)) {
            Some(u) => r matches Some(c) && is_media_of(*c, u),
            None => r is None,
        },
{
    match sanitize_avatar_url(avatar_url) {
        Some(url) => Some(
            Box::new(
                Component::Media(MediaComponent { media: Media { url }, description: None, spoiler: false }),
            ),
        ),
        None => None,
    }
}

/// Whether a component is the text `t`.
pub open spec fn is_text(c: Component, t: Seq<char>) -> bool {
    c matches Component::Text(x) && x.content@ == t
}

/// Whether a component groups the username and the bold title with the image at
/// `url`.
pub open spec fn header_group(c: Component, username: Seq<char>, title: Seq<char>, url: Seq<char>) -> bool {
    &&& c matches Component::Group(g)
    &&& g.components@.len() == 2
    &&& is_text(g.components@[0], username)
    &&& is_text(g.components@[1], "**"@ + title + "**"@)
    &&& g.accessory matches Some(a)
    &&& is_media_of(*a, url)
}

/// The header of a notification: the username and the title in bold, grouped with
/// the avatar when it is fit to show, else as two plain texts.
pub fn stream_header_components(username: &str, avatar_url: Option<String>, title: &str) -> (v: Vec<Component>)
    ensures
        match safe_avatar(opt_text(avatar_url)) {
            Some(u) => v@.len() == 1 && header_group(v@[0], username@, title@, u),
            None => v@.len() == 2 && is_text(v@[0], username@) && is_text(
                v@[1],
                "**"@ + title@ + "**"@,
            ),
        },
{
    let mut header_text: Vec<Component> = Vec::new();
    header_text.push(Component::Text(TextComponent { content: username.to_owned() }));
    header_text.push(Component::Text(TextComponent { content: concat3("**", title, "**") }));
    match accessory_media_component(avatar_url) {
        Some(accessory) => {
            let mut v: Vec<Component> = Vec::new();
            v.push(Component::Group(GroupComponent { components: header_text, accessory: Some(accessory) }));
            v
        },
        None => header_text,
    }
}

/// Who notifications about a stream come from: the platform's name, with its
/// icon when that is fit to show.
pub fn platform_to_identity(stream_info: &StreamInfo) -> (i: Identity)
    ensures
        i.username@ == stream_info.platform.name@,
        opt_text(i.avatar_url) == safe_avatar(opt_text(stream_info.platform.icon)),
{
    let icon = match &stream_info.platform.icon {
        Some(u) => Some(u.clone()),
        None => None,
    };
    Identity { username: stream_info.platform.name.clone(), avatar_url: sanitize_avatar_url(icon) }
}

} // verus!
