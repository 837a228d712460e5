//! Social links: which platform a URL belongs to, its icon, and its
//! canonical address.

use vstd::prelude::*;

use crate::text::str_eq;

verus! {

/// A parsed URL in spec form: serialization, domain, query pairs and path
/// segments.
pub type UrlView = (Seq<char>, Option<Seq<char>>, Seq<(Seq<char>, Seq<char>)>, Option<Seq<Seq<char>>>);

/// The parts of a parsed URL that the site reads.
#[derive(Clone, Debug, PartialEq, Eq)]
pub struct UrlParts {
    /// The URL as the parser writes it.
    pub serialization: String,
    /// The host, when it is a domain name.
    pub domain: Option<String>,
    /// The decoded `key=value` pairs of the query, in order.
    pub query_pairs: Vec<(String, String)>,
    /// The segments of the path; absent for a URL that cannot be a base
    /// (such as `mailto:`).
    pub path_segments: Option<Vec<String>>,
}

impl View for UrlParts {
    type V = UrlView;

    open spec fn view(&self) -> Self::V {
        (
            self.serialization@,
            match self.domain {
                Some(d) => Some(d@),
                None => None,
            },
            self.query_pairs@.map_values(|e: (String, String)| (e.0@, e.1@)),
            match self.path_segments {
                Some(p) => Some(p@.map_values(|e: String| e@)),
                None => None,
            },
        )
    }
}

/// What `url::Url::parse` makes of a string: `None` when it is not a URL,
/// else its serialization, domain, query pairs and path segments.
pub uninterp spec fn url_parse_of(s: Seq<char>) -> Option<UrlView>;

pub open spec fn parsed_view(p: Option<UrlParts>) -> Option<UrlView> {
    match p {
        Some(u) => Some(u@),
        None => None,
    }
}

/// Relies on `url::Url::parse` and, on the parsed URL, its `Display`,
/// `domain`, `query_pairs` and `path_segments`: the parts depend on the
/// string alone.
#[verifier::external_body]
pub(crate) fn parse_url(s: &str) -> (r: Option<UrlParts>)
    ensures
        parsed_view(r) == url_parse_of(s@),
{
    url::Url::parse(s).ok().map(|u| UrlParts {
        serialization: u.to_string(),
        domain: u.domain().map(|d| d.to_string()),
        query_pairs: u.query_pairs().map(|(k, v)| (k.into_owned(), v.into_owned())).collect(),
        path_segments: u.path_segments().map(|p| p.map(|x| x.to_string()).collect()),
    })
}

/// The platform a link points to.
#[derive(Clone, Debug, PartialEq, Eq, Hash)]
pub enum SocialLinkType {
    Twitter,
    Xitter,
    Bluesky,
    Youtube,
    NicoDouga,
    Soundcloud,
    Github,
    LinkTree,
    Spotify,
    TikTok,
    Instagram,
    /// Any other host, by domain.
    OtherUnknown(String),
}

/// Why a string is not a usable social link.
#[derive(Clone, Copy, Debug, PartialEq, Eq, Structural)]
pub enum LinkError {
    /// The string is not a URL.
    NotAUrl,
    /// The URL has no domain name.
    NoDomain,
}

/// The platform of a domain name, if it is one of the known platforms.
pub open spec fn known_type_of_domain(d: Seq<char>) -> Option<SocialLinkType> {
    if d == "twitter.com"@ {
        Some(SocialLinkType::Twitter)
    } else if d == "x.com"@ {
        Some(SocialLinkType::Xitter)
    } else if d == "bsky.app"@ {
        Some(SocialLinkType::Bluesky)
    } else if d == "youtube.com"@ || d == "www.youtube.com"@ {
        Some(SocialLinkType::Youtube)
    } else if d == "soundcloud.com"@ {
        Some(SocialLinkType::Soundcloud)
    } else if d == "nicovideo.jp"@ || d == "www.nicovideo.jp"@ {
        Some(SocialLinkType::NicoDouga)
    } else if d == "github.com"@ {
        Some(SocialLinkType::Github)
    } else if d == "linktree.com"@ || d == "linktr.ee"@ {
        Some(SocialLinkType::LinkTree)
    } else if d == "spotify.com"@ {
        Some(SocialLinkType::Spotify)
    } else if d == "tiktok.com"@ {
        Some(SocialLinkType::TikTok)
    } else if d == "instagram.com"@ {
        Some(SocialLinkType::Instagram)
    } else {
        None
    }
}

/// `t` is the platform of domain `d`: a known platform, or else
/// `OtherUnknown` holding the domain.
pub open spec fn is_type_of_domain(t: SocialLinkType, d: Seq<char>) -> bool {
    match known_type_of_domain(d) {
        Some(k) => t == k,
        None => t matches SocialLinkType::OtherUnknown(o) && o@ == d,
    }
}

/// The icon file of each platform.
pub open spec fn icon_of(t: SocialLinkType) -> Seq<char> {
    match t {
        SocialLinkType::Twitter => "twitter.svg"@,
        SocialLinkType::Xitter => "twitter.svg"@,
        SocialLinkType::Bluesky => "bluesky.svg"@,
        SocialLinkType::Youtube => "youtube.svg"@,
        SocialLinkType::NicoDouga => "niconico.svg"@,
        SocialLinkType::Soundcloud => "soundcloud.svg"@,
        SocialLinkType::Github => "github.svg"@,
        SocialLinkType::LinkTree => "linktree.svg"@,
        SocialLinkType::Spotify => "spotify.svg"@,
        SocialLinkType::TikTok => "tiktok.svg"@,
        SocialLinkType::Instagram => "instagram.svg"@,
        SocialLinkType::OtherUnknown(_) => "link.svg"@,
    }
}

/// The address of each platform that profile and post paths hang from;
/// empty for a platform without one.
pub open spec fn base_of(t: SocialLinkType) -> Seq<char> {
    match t {
        SocialLinkType::Twitter => "https://twitter.com"@,
        SocialLinkType::Xitter => "https://x.com"@,
        SocialLinkType::Bluesky => "https://bsky.app"@,
        SocialLinkType::Youtube => "https://www.youtube.com"@,
        SocialLinkType::NicoDouga => "https://nicovideo.jp"@,
        SocialLinkType::Soundcloud => "https://soundcloud.com"@,
        SocialLinkType::Github => "https://github.com"@,
        SocialLinkType::LinkTree => "https://linktr.ee"@,
        SocialLinkType::OtherUnknown(o) => o@,
        _ => Seq::empty(),
    }
}

impl SocialLinkType {
    /// The file name of the platform's icon.
    pub fn to_svg_icon(&self) -> (r: &str)
        ensures
            r@ == icon_of(*self),
    {
        match self {
            SocialLinkType::Twitter => "twitter.svg",
            SocialLinkType::Xitter => "twitter.svg",
            SocialLinkType::Bluesky => "bluesky.svg",
            SocialLinkType::Youtube => "youtube.svg",
            SocialLinkType::NicoDouga => "niconico.svg",
            SocialLinkType::Soundcloud => "soundcloud.svg",
            SocialLinkType::Github => "github.svg",
            SocialLinkType::LinkTree => "linktree.svg",
            SocialLinkType::Spotify => "spotify.svg",
            SocialLinkType::TikTok => "tiktok.svg",
            SocialLinkType::Instagram => "instagram.svg",
            SocialLinkType::OtherUnknown(_) => "link.svg",
        }
    }

    /// The platform of a domain name.
    pub fn from_domain(d: &str) -> (r: SocialLinkType)
        ensures
            is_type_of_domain(r, d@),
    {
        if str_eq(d, "twitter.com") {
            SocialLinkType::Twitter
        } else if str_eq(d, "x.com") {
            SocialLinkType::Xitter
        } else if str_eq(d, "bsky.app") {
            SocialLinkType::Bluesky
        } else if str_eq(d, "youtube.com") || str_eq(d, "www.youtube.com") {
            SocialLinkType::Youtube
        } else if str_eq(d, "soundcloud.com") {
            SocialLinkType::Soundcloud
        } else if str_eq(d, "nicovideo.jp") || str_eq(d, "www.nicovideo.jp") {
            SocialLinkType::NicoDouga
        } else if str_eq(d, "github.com") {
            SocialLinkType::Github
        } else if str_eq(d, "linktree.com") || str_eq(d, "linktr.ee") {
            SocialLinkType::LinkTree
        } else if str_eq(d, "spotify.com") {
            SocialLinkType::Spotify
        } else if str_eq(d, "tiktok.com") {
            SocialLinkType::TikTok
        } else if str_eq(d, "instagram.com") {
            SocialLinkType::Instagram
        } else {
            SocialLinkType::OtherUnknown(String::from_str(d))
        }
    }

    /// The platform of a parsed link, by its domain.
    pub fn from_parsed(parsed: &Option<UrlParts>) -> (r: Result<SocialLinkType, LinkError>)
        ensures
            link_type_ok(parsed_view(*parsed), r),
    {
        match parsed {
            None => Err(LinkError::NotAUrl),
            Some(u) => match &u.domain {
                None => Err(LinkError::NoDomain),
                Some(d) => Ok(SocialLinkType::from_domain(d.as_str())),
            },
        }
    }

    /// The platform of a link, by the domain of its URL.
    pub fn from_url(s: &str) -> (r: Result<SocialLinkType, LinkError>)
        ensures
            link_type_ok(url_parse_of(s@), r),
    {
        SocialLinkType::from_parsed(&parse_url(s))
    }
}

/// `r` is the platform of the parsed link `p`, or why it has none.
pub open spec fn link_type_ok(
    p: Option<UrlView>,
    r: Result<SocialLinkType, LinkError>,
) -> bool {
    match p {
        None => r == Err::<SocialLinkType, LinkError>(LinkError::NotAUrl),
        Some(v) => match v.1 {
            None => r == Err::<SocialLinkType, LinkError>(LinkError::NoDomain),
            Some(d) => r matches Ok(t) && is_type_of_domain(t, d),
        },
    }
}

/// The part of a social link after the platform's address.
#[derive(Clone, Debug, PartialEq, Eq, Hash)]
pub enum ProfileOrPost {
    Profile(String),
    Post(String),
}

impl ProfileOrPost {
    pub open spec fn path_spec(self) -> Seq<char> {
        match self {
            ProfileOrPost::Profile(p) => p@,
            ProfileOrPost::Post(p) => p@,
        }
    }

    /// The path, whichever kind it is.
    pub fn display_string(&self) -> (r: String)
        ensures
            r@ == self.path_spec(),
    {
        match self {
            ProfileOrPost::Profile(p) => p.clone(),
            ProfileOrPost::Post(p) => p.clone(),
        }
    }
}

/// A link to a profile or a post on a platform.
#[derive(Clone, Debug, PartialEq, Eq, Hash)]
pub struct SocialLink {
    pub social_link_type: SocialLinkType,
    pub profile_or_post: ProfileOrPost,
}

impl SocialLink {
    /// `<platform address>/<path>`.
    pub fn display_string(&self) -> (r: String)
        ensures
            r@ == base_of(self.social_link_type) + "/"@ + self.profile_or_post.path_spec(),
    {
        let path = self.profile_or_post.display_string();
        let mut r = match &self.social_link_type {
            SocialLinkType::Twitter => String::from_str("https://twitter.com"),
            SocialLinkType::Xitter => String::from_str("https://x.com"),
            SocialLinkType::Bluesky => String::from_str("https://bsky.app"),
            SocialLinkType::Youtube => String::from_str("https://www.youtube.com"),
            SocialLinkType::NicoDouga => String::from_str("https://nicovideo.jp"),
            SocialLinkType::Soundcloud => String::from_str("https://soundcloud.com"),
            SocialLinkType::Github => String::from_str("https://github.com"),
            SocialLinkType::LinkTree => String::from_str("https://linktr.ee"),
            SocialLinkType::OtherUnknown(other) => other.clone(),
            _ => String::new(),
        };
        r.append("/");
        r.append(path.as_str());
        r
    }
}

/// Whether `s` is already a URL.
pub fn is_url(s: &str) -> (r: bool)
    ensures
        r == url_parse_of(s@) is Some,
{
    parse_url(s).is_some()
}

} // verus!
