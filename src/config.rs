//! Site configuration and link rewriting: every relative link in rendered
//! output becomes an absolute URL under the site's base URL, or under the
//! asset origin for binary assets.

use std::fmt::Write;

use vstd::prelude::*;

use crate::links::{parse_url, parsed_view, url_parse_of, UrlParts, UrlView};
use crate::text::{starts_with, str_starts_with};

verus! {

/// The base URLs and content root of one build, set once at start and
/// passed to whatever rewrites links.
#[derive(Clone, Debug)]
pub struct SiteConfig {
    /// Base URL of the site, such as `https://example.org`.
    pub site_url: String,
    /// Base URL of the origin that serves audio and images.
    pub external_bin_url: String,
    /// Directory that holds the content files.
    pub site_root: String,
}

impl SiteConfig {
    pub fn new(site_url: String, external_bin_url: String, site_root: String) -> (r: SiteConfig)
        ensures
            r.site_url == site_url,
            r.external_bin_url == external_bin_url,
            r.site_root == site_root,
    {
        SiteConfig { site_url, external_bin_url, site_root }
    }
}

pub fn set_site_url(config: &mut SiteConfig, value: String)
    ensures
        *final(config) == (SiteConfig { site_url: value, ..*old(config) }),
{
    config.site_url = value;
}

pub fn site_url(config: &SiteConfig) -> (r: String)
    ensures
        r == config.site_url,
{
    config.site_url.clone()
}

pub fn set_external_bin_url(config: &mut SiteConfig, value: String)
    ensures
        *final(config) == (SiteConfig { external_bin_url: value, ..*old(config) }),
{
    config.external_bin_url = value;
}

pub fn set_site_root(config: &mut SiteConfig, site_root: String)
    ensures
        *final(config) == (SiteConfig { site_root, ..*old(config) }),
{
    config.site_root = site_root;
}

pub fn site_root(config: &SiteConfig) -> (r: &str)
    ensures
        r@ == config.site_root@,
{
    config.site_root.as_str()
}

/// `thing` under `root`, with exactly the one slash between them that
/// `thing` does not already start with.
pub open spec fn guarded(root: Seq<char>, thing: Seq<char>) -> Seq<char> {
    if starts_with(thing, "/"@) {
        root + thing
    } else {
        root + "/"@ + thing
    }
}

/// Joins `thing` to `root`, adding a slash unless `thing` starts with one.
pub fn slash_guard(root: &str, thing: &str) -> (r: String)
    ensures
        r@ == guarded(root@, thing@),
{
    let mut r = String::from_str(root);
    if !str_starts_with(thing, "/") {
        r.append("/");
    }
    r.append(thing);
    r
}

/// An absolute URL on the site for a site-relative path.
pub fn lnk(config: &SiteConfig, url: &str) -> (r: String)
    ensures
        r@ == guarded(config.site_url@, url@),
{
    slash_guard(config.site_url.as_str(), url)
}

/// Where an asset link points once published, given what the URL parser
/// made of it: a string that is already a URL stays as the parser writes
/// it; a `miku:` link goes under the asset origin; any other path goes
/// under the site.
pub open spec fn asset_link(
    config: SiteConfig,
    url: Seq<char>,
    parsed: Option<UrlView>,
) -> Seq<char> {
    match parsed {
        Some(v) => v.0,
        None => if starts_with(url, "miku:"@) {
            guarded(config.external_bin_url@, url)
        } else {
            guarded(config.site_url@, url)
        },
    }
}

/// The published address of asset link `url`, whose parse is `parsed`.
pub fn asset_link_from_parsed(config: &SiteConfig, url: &str, parsed: Option<UrlParts>) -> (r: String)
    ensures
        r@ == asset_link(*config, url@, parsed_view(parsed)),
{
    if let Some(u) = parsed {
        return u.serialization;
    }
    if str_starts_with(url, "miku:") {
        slash_guard(config.external_bin_url.as_str(), url)
    } else {
        slash_guard(config.site_url.as_str(), url)
    }
}

/// The published address of an asset link.
pub fn lnk_s3(config: &SiteConfig, url: &str) -> (r: String)
    ensures
        r@ == asset_link(*config, url@, url_parse_of(url@)),
{
    asset_link_from_parsed(config, url, parse_url(url))
}

/// The HTML escape of one character.
pub open spec fn escape_char(c: char) -> Seq<char> {
    if c == '&' {
        "&amp;"@
    } else if c == '<' {
        "&lt;"@
    } else if c == '>' {
        "&gt;"@
    } else if c == '"' {
        "&quot;"@
    } else {
        seq![c]
    }
}

/// `s` with `&`, `<`, `>` and `"` replaced by their HTML entities.
pub open spec fn escape_html(s: Seq<char>) -> Seq<char>
    decreases s.len(),
{
    if s.len() == 0 {
        Seq::empty()
    } else {
        escape_html(s.drop_last()) + escape_char(s.last())
    }
}

/// Relies on `maud::Escaper`: it replaces `&`, `<`, `>` and `"` by their
/// entities and passes every other character through.
#[verifier::external_body]
fn html_escape(s: &str) -> (r: String)
    ensures
        r@ == escape_html(s@),
{
    let mut out = String::new();
    let _ = write!(maud::Escaper::new(&mut out), "{}", s);
    out
}

/// The markup of a link to a member's page, for use inside Markdown bodies.
pub open spec fn member_link_html(config: SiteConfig, to_link: Seq<char>) -> Seq<char> {
    "<a href=\""@ + escape_html(guarded(config.site_url@, "members/"@ + to_link + ".html"@)) + "\">"@
        + escape_html(to_link) + "</a>"@
}

/// A link to the page of the member with handle `to_link`, as markup.
pub fn jinja_member(config: &SiteConfig, to_link: &str) -> (r: String)
    ensures
        r@ == member_link_html(*config, to_link@),
{
    let mut path = String::from_str("members/");
    path.append(to_link);
    path.append(".html");
    let href = lnk(config, path.as_str());
    let mut r = String::from_str("<a href=\"");
    r.append(html_escape(href.as_str()).as_str());
    r.append("\">");
    r.append(html_escape(to_link).as_str());
    r.append("</a>");
    r
}

} // verus!
