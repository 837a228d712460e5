//! News posts.

use vstd::prelude::*;

use crate::date::Date;

verus! {

/// A post as its front matter states it.
#[derive(Clone, Debug)]
pub struct RawPostMeta {
    pub title: String,
    /// Handle of the member who wrote it.
    pub author: String,
    pub header_image: Option<String>,
    pub date: Date,
    pub short: Option<String>,
    /// A post of the club itself rather than of one member; false when
    /// absent.
    pub official: bool,
    pub social_links: Vec<String>,
}

/// A post record as the site uses it.
#[derive(Clone, Debug)]
pub struct PostMeta {
    pub title: String,
    pub author: String,
    pub header_image: Option<String>,
    pub date: Date,
    /// Summary; empty when the front matter has none.
    pub short: String,
    pub official: bool,
    pub social_links: Vec<String>,
}

impl PostMeta {
    /// Completes a post record: a missing summary becomes the empty string.
    pub fn from_raw(raw: RawPostMeta) -> (r: PostMeta)
        ensures
            r == (PostMeta {
                title: raw.title,
                author: raw.author,
                header_image: raw.header_image,
                date: raw.date,
                short: r.short,
                official: raw.official,
                social_links: raw.social_links,
            }),
            r.short@ == match raw.short {
                Some(s) => s@,
                None => Seq::<char>::empty(),
            },
    {
        let short = match raw.short {
            Some(s) => s,
            None => String::new(),
        };
        PostMeta {
            title: raw.title,
            author: raw.author,
            header_image: raw.header_image,
            date: raw.date,
            short,
            official: raw.official,
            social_links: raw.social_links,
        }
    }
}

} // verus!
