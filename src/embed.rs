//! How a linked release is embedded in a page, and which thumbnail stands
//! for it.

use vstd::prelude::*;

use crate::links::{
    known_type_of_domain, parse_url, parsed_view, url_parse_of, SocialLinkType, UrlParts, UrlView,
};
use crate::text::{starts_with, str_eq, str_starts_with};
use crate::work::{CoverOrImage, WorkMeta};

verus! {

/// `s` ends with `suffix`.
pub open spec fn ends_with(s: Seq<char>, suffix: Seq<char>) -> bool {
    suffix.len() <= s.len() && s.skip(s.len() - suffix.len()) == suffix
}

fn str_ends_with(s: &str, suffix: &str) -> (r: bool)
    ensures
        r == ends_with(s@, suffix@),
{
    let n = s.unicode_len();
    let m = suffix.unicode_len();
    if m > n {
        return false;
    }
    let tail = s.substring_char(n - m, n);
    assert(tail@ == s@.skip(n - m)) by {
        assert(s@.subrange((n - m) as int, n as int) =~= s@.skip(n - m));
    }
    str_eq(tail, suffix)
}

/// A link to an image file.
pub open spec fn is_image_link(l: Seq<char>) -> bool {
    ends_with(l, ".png"@) || ends_with(l, ".jpeg"@) || ends_with(l, ".jpg"@) || ends_with(
        l,
        ".gif"@,
    )
}

/// A link to an audio file.
pub open spec fn is_audio_link(l: Seq<char>) -> bool {
    ends_with(l, ".mp3"@) || ends_with(l, ".ogg"@) || ends_with(l, ".wav"@)
}

/// The value of the first query pair whose key is `key`.
pub open spec fn first_value(pairs: Seq<(Seq<char>, Seq<char>)>, key: Seq<char>) -> Option<
    Seq<char>,
>
    decreases pairs.len(),
{
    if pairs.len() == 0 {
        None
    } else if pairs[0].0 == key {
        Some(pairs[0].1)
    } else {
        first_value(pairs.drop_first(), key)
    }
}

/// The first segment that starts with `prefix`.
pub open spec fn first_with_prefix(segs: Seq<Seq<char>>, prefix: Seq<char>) -> Option<Seq<char>>
    decreases segs.len(),
{
    if segs.len() == 0 {
        None
    } else if starts_with(segs[0], prefix) {
        Some(segs[0])
    } else {
        first_with_prefix(segs.drop_first(), prefix)
    }
}

/// The value under `key` in a URL's query pairs, the first if several.
pub fn query_value(pairs: &Vec<(String, String)>, key: &str) -> (r: Option<String>)
    ensures
        r matches Some(v) ==> first_value(
            pairs@.map_values(|e: (String, String)| (e.0@, e.1@)),
            key@,
        ) == Some(v@),
        r is None ==> first_value(pairs@.map_values(|e: (String, String)| (e.0@, e.1@)), key@)
            is None,
{
    let ghost all = pairs@.map_values(|e: (String, String)| (e.0@, e.1@));
    assert(all.skip(0) =~= all);
    let mut i: usize = 0;
    while i < pairs.len()
        invariant
            i <= pairs@.len(),
            all == pairs@.map_values(|e: (String, String)| (e.0@, e.1@)),
            first_value(all, key@) == first_value(all.skip(i as int), key@),
        decreases pairs@.len() - i,
    {
        assert(all.skip(i as int)[0] == (pairs@[i as int].0@, pairs@[i as int].1@));
        if str_eq(pairs[i].0.as_str(), key) {
            return Some(pairs[i].1.clone());
        }
        assert(all.skip(i as int).drop_first() =~= all.skip(i as int + 1));
        i = i + 1;
    }
    None
}

/// The first path segment that starts with `prefix`.
pub fn segment_with_prefix(segs: &Vec<String>, prefix: &str) -> (r: Option<String>)
    ensures
        r matches Some(v) ==> first_with_prefix(segs@.map_values(|e: String| e@), prefix@)
            == Some(v@),
        r is None ==> first_with_prefix(segs@.map_values(|e: String| e@), prefix@) is None,
{
    let ghost all = segs@.map_values(|e: String| e@);
    assert(all.skip(0) =~= all);
    let mut i: usize = 0;
    while i < segs.len()
        invariant
            i <= segs@.len(),
            all == segs@.map_values(|e: String| e@),
            first_with_prefix(all, prefix@) == first_with_prefix(all.skip(i as int), prefix@),
        decreases segs@.len() - i,
    {
        assert(all.skip(i as int)[0] == segs@[i as int]@);
        if str_starts_with(segs[i].as_str(), prefix) {
            return Some(segs[i].clone());
        }
        assert(all.skip(i as int).drop_first() =~= all.skip(i as int + 1));
        i = i + 1;
    }
    None
}

/// What an embedded link becomes on a page.
#[derive(Clone, Debug, PartialEq, Eq)]
pub enum Embed {
    /// An image shown inline.
    Image,
    /// An audio player with a download link.
    Audio,
    /// A post on Twitter or X, rendered by its widget script.
    Tweet,
    /// A Bluesky post, rendered from the platform's oEmbed answer.
    Bluesky,
    /// A YouTube player at this address.
    YoutubePlayer(String),
    /// A niconico player at this address.
    NicoPlayer(String),
}

/// Why a link cannot be embedded.
#[derive(Clone, Copy, Debug, PartialEq, Eq, Structural)]
pub enum EmbedError {
    NotAUrl,
    NoDomain,
    /// A YouTube link without a `v` query value.
    NoYoutubeId,
    /// A niconico link whose path has no `sm` video id.
    NoNicoId,
    /// A platform that has no embed.
    Unsupported,
}

/// `r` is the embed of a parsed link whose platform is `kind`.
pub open spec fn platform_embed_ok(v: UrlView, kind: SocialLinkType, r: Result<Embed, EmbedError>) -> bool {
    match kind {
        SocialLinkType::Twitter | SocialLinkType::Xitter => r == Ok::<Embed, EmbedError>(
            Embed::Tweet,
        ),
        SocialLinkType::Bluesky => r == Ok::<Embed, EmbedError>(Embed::Bluesky),
        SocialLinkType::Youtube => match first_value(v.2, "v"@) {
            Some(id) => r matches Ok(Embed::YoutubePlayer(u)) && u@
                == "https://www.youtube.com/embed/"@ + id,
            None => r == Err::<Embed, EmbedError>(EmbedError::NoYoutubeId),
        },
        SocialLinkType::NicoDouga => match v.3 {
            Some(segs) => match first_with_prefix(segs, "sm"@) {
                Some(id) => r matches Ok(Embed::NicoPlayer(u)) && u@
                    == "https://embed.nicovideo.jp/watch/"@ + id,
                None => r == Err::<Embed, EmbedError>(EmbedError::NoNicoId),
            },
            None => r == Err::<Embed, EmbedError>(EmbedError::NoNicoId),
        },
        _ => r == Err::<Embed, EmbedError>(EmbedError::Unsupported),
    }
}

/// `r` is the embed of the parsed link `p`, by the platform of its domain.
pub open spec fn parsed_embed_ok(p: Option<UrlView>, r: Result<Embed, EmbedError>) -> bool {
    match p {
        None => r == Err::<Embed, EmbedError>(EmbedError::NotAUrl),
        Some(v) => match v.1 {
            None => r == Err::<Embed, EmbedError>(EmbedError::NoDomain),
            Some(d) => match known_type_of_domain(d) {
                Some(kind) => platform_embed_ok(v, kind, r),
                None => r == Err::<Embed, EmbedError>(EmbedError::Unsupported),
            },
        },
    }
}

/// The embed of a parsed link, by the platform of its domain.
pub fn embed_from_parsed(parsed: &Option<UrlParts>) -> (r: Result<Embed, EmbedError>)
    ensures
        parsed_embed_ok(parsed_view(*parsed), r),
{
    let u = match parsed {
        None => {
            return Err(EmbedError::NotAUrl);
        },
        Some(u) => u,
    };
    let kind = match &u.domain {
        None => {
            return Err(EmbedError::NoDomain);
        },
        Some(d) => SocialLinkType::from_domain(d.as_str()),
    };
    match kind {
        SocialLinkType::Twitter | SocialLinkType::Xitter => Ok(Embed::Tweet),
        SocialLinkType::Bluesky => Ok(Embed::Bluesky),
        SocialLinkType::Youtube => match query_value(&u.query_pairs, "v") {
            Some(id) => {
                let mut e = String::from_str("https://www.youtube.com/embed/");
                e.append(id.as_str());
                Ok(Embed::YoutubePlayer(e))
            },
            None => Err(EmbedError::NoYoutubeId),
        },
        SocialLinkType::NicoDouga => match &u.path_segments {
            Some(segs) => match segment_with_prefix(segs, "sm") {
                Some(id) => {
                    let mut e = String::from_str("https://embed.nicovideo.jp/watch/");
                    e.append(id.as_str());
                    Ok(Embed::NicoPlayer(e))
                },
                None => Err(EmbedError::NoNicoId),
            },
            None => Err(EmbedError::NoNicoId),
        },
        _ => Err(EmbedError::Unsupported),
    }
}

/// Decides how `link` is embedded: image and audio files by their
/// extension, other links by the platform of their domain.
pub fn plan_embed(link: &str) -> (r: Result<Embed, EmbedError>)
    ensures
        is_image_link(link@) ==> r == Ok::<Embed, EmbedError>(Embed::Image),
        !is_image_link(link@) && is_audio_link(link@) ==> r == Ok::<Embed, EmbedError>(
            Embed::Audio,
        ),
        !is_image_link(link@) && !is_audio_link(link@) ==> parsed_embed_ok(url_parse_of(link@), r),
{
    if str_ends_with(link, ".png") || str_ends_with(link, ".jpeg") || str_ends_with(link, ".jpg")
        || str_ends_with(link, ".gif") {
        return Ok(Embed::Image);
    }
    if str_ends_with(link, ".mp3") || str_ends_with(link, ".ogg") || str_ends_with(link, ".wav") {
        return Ok(Embed::Audio);
    }
    embed_from_parsed(&parse_url(link))
}

/// The image that stands for a link on cards and page heads.
#[derive(Clone, Debug, PartialEq, Eq)]
pub enum Thumbnail {
    /// An image of the site, by its path under the content root.
    SiteImage(String),
    /// An image elsewhere, by URL.
    Remote(String),
    /// No image.
    Empty,
}

/// The placeholder image of the site.
pub open spec fn placeholder_image() -> Seq<char> {
    "images/gray.jpg"@
}

/// `r` is the thumbnail of the parsed link `p`: YouTube's still for a
/// YouTube video, the placeholder for any other platform.
pub open spec fn parsed_thumbnail_ok(p: Option<UrlView>, r: Result<Thumbnail, EmbedError>) -> bool {
    match p {
        None => r == Err::<Thumbnail, EmbedError>(EmbedError::NotAUrl),
        Some(v) => match v.1 {
            None => r == Err::<Thumbnail, EmbedError>(EmbedError::NoDomain),
            Some(d) => match known_type_of_domain(d) {
                Some(SocialLinkType::Youtube) => match first_value(v.2, "v"@) {
                    Some(id) => r matches Ok(Thumbnail::Remote(u)) && u@
                        == "https://img.youtube.com/vi/"@ + id + "/maxresdefault.jpg"@,
                    None => r == Err::<Thumbnail, EmbedError>(EmbedError::NoYoutubeId),
                },
                _ => r matches Ok(Thumbnail::SiteImage(s)) && s@ == placeholder_image(),
            },
        },
    }
}

/// The thumbnail of a parsed link.
pub fn thumbnail_from_parsed(parsed: &Option<UrlParts>) -> (r: Result<Thumbnail, EmbedError>)
    ensures
        parsed_thumbnail_ok(parsed_view(*parsed), r),
{
    let u = match parsed {
        None => {
            return Err(EmbedError::NotAUrl);
        },
        Some(u) => u,
    };
    let kind = match &u.domain {
        None => {
            return Err(EmbedError::NoDomain);
        },
        Some(d) => SocialLinkType::from_domain(d.as_str()),
    };
    match kind {
        SocialLinkType::Youtube => match query_value(&u.query_pairs, "v") {
            Some(id) => {
                let mut s = String::from_str("https://img.youtube.com/vi/");
                s.append(id.as_str());
                s.append("/maxresdefault.jpg");
                Ok(Thumbnail::Remote(s))
            },
            None => Err(EmbedError::NoYoutubeId),
        },
        _ => Ok(Thumbnail::SiteImage(String::from_str("images/gray.jpg"))),
    }
}

/// The thumbnail of a linked release.
pub fn get_link_image_thumb(link: &str) -> (r: Result<Thumbnail, EmbedError>)
    ensures
        parsed_thumbnail_ok(url_parse_of(link@), r),
{
    thumbnail_from_parsed(&parse_url(link))
}

impl WorkMeta {
    /// The thumbnail of a release: its cover, the thumbnail of its link, or
    /// none for an audio file.
    pub fn thumbnail(&self) -> (r: Result<Thumbnail, EmbedError>)
        ensures
            self.display matches CoverOrImage::Cover(c) ==> r == Ok::<Thumbnail, EmbedError>(
                Thumbnail::SiteImage(c),
            ),
            self.display matches CoverOrImage::AudioFile(_) ==> r == Ok::<Thumbnail, EmbedError>(
                Thumbnail::Empty,
            ),
            self.display matches CoverOrImage::Link(l) ==> parsed_thumbnail_ok(
                url_parse_of(l@),
                r,
            ),
    {
        match &self.display {
            CoverOrImage::Cover(c) => Ok(Thumbnail::SiteImage(c.clone())),
            CoverOrImage::Link(l) => get_link_image_thumb(l.as_str()),
            CoverOrImage::AudioFile(_) => Ok(Thumbnail::Empty),
        }
    }
}

/// What the Bluesky oEmbed service answered for a post.
#[derive(Clone, Debug, PartialEq, Eq)]
pub enum OEmbedReply {
    /// No usable answer: the request failed, timed out, or did not return
    /// success.
    Failed,
    /// An answer, with its `html` and `url` fields.
    Answer { html: Option<String>, url: Option<String> },
}

/// How a Bluesky post is shown.
#[derive(Clone, Debug, PartialEq, Eq)]
pub enum BlueskyView {
    /// The markup that the service gave.
    Html(String),
    /// The image at this address, linking to the post.
    LinkedImage(String),
    /// A plain link to the post.
    PlainLink,
}

/// Chooses how a Bluesky post is shown from the service's answer: its
/// markup if it gave some, else its image, else a plain link. A service
/// that does not answer never stops the build.
pub fn bluesky_view(reply: OEmbedReply) -> (r: BlueskyView)
    ensures
        r == match reply {
            OEmbedReply::Answer { html: Some(h), .. } => BlueskyView::Html(h),
            OEmbedReply::Answer { html: None, url: Some(u) } => BlueskyView::LinkedImage(u),
            _ => BlueskyView::PlainLink,
        },
{
    match reply {
        OEmbedReply::Answer { html: Some(h), .. } => BlueskyView::Html(h),
        OEmbedReply::Answer { html: None, url: Some(u) } => BlueskyView::LinkedImage(u),
        _ => BlueskyView::PlainLink,
    }
}

} // verus!
