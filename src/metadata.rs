//! Page metadata: title, canonical link, section and the facts that the
//! page head announces.

use vstd::prelude::*;

use crate::album::AlbumMeta;
use crate::member::MemberMeta;
use crate::names::NameMap;
use crate::post::PostMeta;
use crate::slug::{album_reference, post_reference, slug_spec, work_reference};
use crate::text::{prefix_chars, shorten, str_eq, SHORT_LEN};
use crate::work::{CoverOrImage, WorkMeta};

verus! {

/// The part of the site a page belongs to.
#[derive(Clone, Copy, Debug, PartialEq, Eq, Structural)]
pub enum Sections {
    Home,
    Members,
    MemberProfile,
    Activities,
    Join,
    News,
    NewsPost,
    Works,
    WorksPost,
    AlbumPost,
}

impl Sections {
    pub open spec fn page_type_spec(self) -> Seq<char> {
        match self {
            Sections::MemberProfile => "profile"@,
            Sections::NewsPost | Sections::WorksPost | Sections::AlbumPost => "article"@,
            _ => "website"@,
        }
    }

    /// The Open Graph type of a page in this section.
    pub fn page_type(&self) -> (r: &str)
        ensures
            r@ == self.page_type_spec(),
    {
        match self {
            Sections::MemberProfile => "profile",
            Sections::NewsPost | Sections::WorksPost | Sections::AlbumPost => "article",
            _ => "website",
        }
    }

    pub open spec fn nav_section_spec(self) -> Sections {
        match self {
            Sections::MemberProfile => Sections::Members,
            Sections::NewsPost => Sections::News,
            Sections::WorksPost | Sections::AlbumPost => Sections::Works,
            s => s,
        }
    }

    /// The navigation entry that is highlighted on a page of this section:
    /// a detail page highlights the list it belongs to.
    pub fn nav_section(&self) -> (r: Sections)
        ensures
            r == self.nav_section_spec(),
    {
        match self {
            Sections::MemberProfile => Sections::Members,
            Sections::NewsPost => Sections::News,
            Sections::WorksPost | Sections::AlbumPost => Sections::Works,
            s => *s,
        }
    }
}

/// What the head of a page states about it.
#[derive(Clone, Debug)]
pub struct Metadata {
    pub page_title: String,
    pub page_image: Option<String>,
    pub canonical_link: String,
    pub section: Sections,
    pub description: Option<String>,
    pub author: Option<String>,
    pub date: Option<String>,
}

/// The club's name, appended to member page titles.
pub open spec fn club_suffix() -> Seq<char> {
    " - 東京大学ボカロP同好会"@
}

/// A member's page title: the display name, followed by the handle in
/// parentheses when the two differ.
pub open spec fn member_title(m: MemberMeta) -> Seq<char> {
    if m.name@ == m.ascii_name@ {
        m.name@ + club_suffix()
    } else {
        m.name@ + "("@ + m.ascii_name@ + ")"@ + club_suffix()
    }
}

impl MemberMeta {
    /// The metadata of a member's profile page.
    pub fn to_metadata(value: MemberMeta) -> (r: Metadata)
        ensures
            r.page_title@ == member_title(value),
            r.page_image matches Some(i) && i@ == "images/icon/"@ + value.ascii_name@ + ".jpg"@,
            r.canonical_link@ == "members/"@ + value.ascii_name@ + ".html"@,
            r.section == Sections::MemberProfile,
            r.description == Some(value.short),
            r.author == Some(value.name),
            r.date is None,
    {
        let mut page_title = value.name.clone();
        if !str_eq(value.name.as_str(), value.ascii_name.as_str()) {
            page_title.append("(");
            page_title.append(value.ascii_name.as_str());
            page_title.append(")");
        }
        page_title.append(" - 東京大学ボカロP同好会");
        let mut page_image = String::from_str("images/icon/");
        page_image.append(value.ascii_name.as_str());
        page_image.append(".jpg");
        let mut canonical_link = String::from_str("members/");
        canonical_link.append(value.ascii_name.as_str());
        canonical_link.append(".html");
        Metadata {
            page_title,
            page_image: Some(page_image),
            canonical_link,
            section: Sections::MemberProfile,
            description: Some(value.short),
            author: Some(value.name),
            date: None,
        }
    }
}

impl Metadata {
    /// The metadata of an album's page.
    pub fn from_album(value: AlbumMeta) -> (r: Metadata)
        requires
            value.release_date.wf(),
        ensures
            r.page_title == value.title,
            r.page_image == Some(value.front_cover),
            r.canonical_link@ == "/works/albums/"@ + slug_spec(value.title@, value.front_cover@)
                + ".html"@,
            r.section == Sections::AlbumPost,
            r.description == Some(value.short),
            r.author matches Some(a) && a@ == value.naive_credit_spec(),
            r.date matches Some(d) && d@ == value.release_date.iso_spec(),
    {
        let authors = value.contributors_str_naive();
        let date = value.release_date.to_iso_string();
        let mut canonical_link = String::from_str("/works/albums/");
        canonical_link.append(album_reference(value.title.as_str(), value.front_cover.as_str()).as_str());
        canonical_link.append(".html");
        Metadata {
            canonical_link,
            page_title: value.title,
            page_image: Some(value.front_cover),
            section: Sections::AlbumPost,
            description: Some(value.short),
            author: Some(authors),
            date: Some(date),
        }
    }
}

/// The path of a member's page.
pub open spec fn member_page_spec(handle: Seq<char>) -> Seq<char> {
    "/members/"@ + handle + ".html"@
}

/// The path of the page of the member with handle `handle`.
pub fn member_page(handle: &str) -> (r: String)
    ensures
        r@ == member_page_spec(handle@),
{
    let mut r = String::from_str("/members/");
    r.append(handle);
    r.append(".html");
    r
}

/// The page description of a release: its summary, or else the start of
/// its body.
pub open spec fn work_description(work: WorkMeta, content: Seq<char>) -> Seq<char> {
    match work.short {
        Some(s) => s@,
        None => prefix_chars(content, SHORT_LEN as nat),
    }
}

impl PostMeta {
    /// The image that heads a post: its header image, or the placeholder.
    pub fn thumbnail_path(&self) -> (r: String)
        ensures
            r@ == match self.header_image {
                Some(h) => "images/"@ + h@,
                None => "images/gray.jpg"@,
            },
    {
        match &self.header_image {
            Some(h) => {
                let mut r = String::from_str("images/");
                r.append(h.as_str());
                r
            },
            None => String::from_str("images/gray.jpg"),
        }
    }
}

impl Metadata {
    /// The metadata of a release's page, whose rendered body is `content`.
    pub fn for_work(work: &WorkMeta, content: &str) -> (r: Metadata)
        requires
            work.date.wf(),
        ensures
            r.page_title == work.title,
            r.page_image == match work.display {
                CoverOrImage::Cover(c) => Some(c),
                CoverOrImage::Link(l) => Some(l),
                CoverOrImage::AudioFile(_) => None::<String>,
            },
            r.canonical_link@ == "/works/releases/"@ + slug_spec(work.author@, work.title@)
                + ".html"@,
            r.section == Sections::WorksPost,
            r.description matches Some(d) && d@ == work_description(*work, content@),
            r.author == Some(work.author),
            r.date matches Some(d) && d@ == work.date.iso_spec(),
    {
        let page_image = match &work.display {
            CoverOrImage::Cover(c) => Some(c.clone()),
            CoverOrImage::Link(l) => Some(l.clone()),
            CoverOrImage::AudioFile(_) => None,
        };
        let description = match &work.short {
            Some(s) => s.clone(),
            None => shorten(content),
        };
        let mut canonical_link = String::from_str("/works/releases/");
        canonical_link.append(work_reference(work.title.as_str(), work.author.as_str()).as_str());
        canonical_link.append(".html");
        Metadata {
            page_title: work.title.clone(),
            page_image,
            canonical_link,
            section: Sections::WorksPost,
            description: Some(description),
            author: Some(work.author.clone()),
            date: Some(work.date.to_iso_string()),
        }
    }

    /// The metadata of a post's page, whose rendered body is `content` and
    /// whose header image is published at `page_image`.
    pub fn for_post(post: &PostMeta, content: &str, page_image: String) -> (r: Metadata)
        requires
            post.date.wf(),
        ensures
            r.page_title == post.title,
            r.page_image == Some(page_image),
            r.canonical_link@ == "/news/"@ + slug_spec(
                post.author@,
                post.title@ + post.date.iso_spec(),
            ) + ".html"@,
            r.section == Sections::NewsPost,
            r.description matches Some(d) && d@ == prefix_chars(content@, SHORT_LEN as nat),
            r.author == Some(post.author),
            r.date matches Some(d) && d@ == post.date.iso_spec(),
    {
        let mut canonical_link = String::from_str("/news/");
        canonical_link.append(post_reference(post).as_str());
        canonical_link.append(".html");
        Metadata {
            page_title: post.title.clone(),
            page_image: Some(page_image),
            canonical_link,
            section: Sections::NewsPost,
            description: Some(shorten(content)),
            author: Some(post.author.clone()),
            date: Some(post.date.to_iso_string()),
        }
    }

    /// The metadata of an album's page, credited to its contributors'
    /// display names.
    pub fn for_album(album: &AlbumMeta, names: &NameMap) -> (r: Metadata)
        requires
            album.release_date.wf(),
            names.wf(),
            album.contributors_resolve(names@),
        ensures
            r.page_title == album.title,
            r.page_image is None,
            r.canonical_link@ == "/works/albums/"@ + slug_spec(album.title@, album.front_cover@)
                + ".html"@,
            r.section == Sections::AlbumPost,
            r.description == Some(album.short),
            r.author matches Some(a) && a@ == album.credit_spec(names@),
            r.date matches Some(d) && d@ == album.release_date.iso_spec(),
    {
        let mut canonical_link = String::from_str("/works/albums/");
        canonical_link.append(album_reference(album.title.as_str(), album.front_cover.as_str()).as_str());
        canonical_link.append(".html");
        Metadata {
            page_title: album.title.clone(),
            page_image: None,
            canonical_link,
            section: Sections::AlbumPost,
            description: Some(album.short.clone()),
            author: Some(album.contributors_str(names)),
            date: Some(album.release_date.to_iso_string()),
        }
    }
}

/// The file of a member's page: `members/<handle>.html`.
pub fn member_page_path(handle: &str) -> (r: String)
    ensures
        r@ == "members/"@ + handle@ + ".html"@,
{
    let mut r = String::from_str("members/");
    r.append(handle);
    r.append(".html");
    r
}

/// The file of a release's page: `works/releases/<slug>.html`.
pub fn work_page_path(title: &str, author_ascii: &str) -> (r: String)
    ensures
        r@ == "works/releases/"@ + slug_spec(author_ascii@, title@) + ".html"@,
{
    let mut r = String::from_str("works/releases/");
    r.append(work_reference(title, author_ascii).as_str());
    r.append(".html");
    r
}

/// The file of an album's page: `works/albums/<slug>.html`.
pub fn album_page_path(title: &str, cover: &str) -> (r: String)
    ensures
        r@ == "works/albums/"@ + slug_spec(title@, cover@) + ".html"@,
{
    let mut r = String::from_str("works/albums/");
    r.append(album_reference(title, cover).as_str());
    r.append(".html");
    r
}

/// The file of a post's page: `news/<slug>.html`.
pub fn news_page_path(post: &PostMeta) -> (r: String)
    requires
        post.date.wf(),
    ensures
        r@ == "news/"@ + slug_spec(post.author@, post.title@ + post.date.iso_spec()) + ".html"@,
{
    let mut r = String::from_str("news/");
    r.append(post_reference(post).as_str());
    r.append(".html");
    r
}

} // verus!
