//! Releases ("works") by members.

use vstd::prelude::*;

use crate::date::Date;

verus! {

/// What a release page shows as its main visual.
#[derive(Clone, Debug, PartialEq, Eq)]
pub enum CoverOrImage {
    /// A cover image under `images/`.
    Cover(String),
    /// A link to the release on a hosting site.
    Link(String),
    /// An audio file served from the asset origin.
    AudioFile(String),
}

/// A release as its front matter states it, before a display is chosen.
#[derive(Clone, Debug, PartialEq)]
pub struct RawWorkMeta {
    pub title: String,
    /// Handle of the member who made it.
    pub author: String,
    /// Handles of members who took part; empty when absent.
    pub collaborators: Vec<String>,
    pub date: Date,
    pub short: Option<String>,
    pub cover_image: Option<String>,
    pub link: Option<String>,
    pub file: Option<String>,
    /// Link to the original work, for a remix.
    pub remix_original_work: Option<String>,
    /// Shown on the author's member page; false when absent.
    pub featured: bool,
    pub streaming: Vec<String>,
    pub duration_seconds: Option<i32>,
}

/// A release record as the site uses it.
#[derive(Clone, Debug, PartialEq)]
pub struct WorkMeta {
    pub title: String,
    pub author: String,
    pub collaborators: Vec<String>,
    pub date: Date,
    pub short: Option<String>,
    pub display: CoverOrImage,
    pub cover_image: Option<String>,
    pub link: Option<String>,
    pub file: Option<String>,
    pub remix_original_work: Option<String>,
    pub featured: bool,
    pub streaming: Vec<String>,
    pub duration_seconds: Option<i32>,
}

/// A front matter that cannot become a record.
#[derive(Clone, Copy, Debug, PartialEq, Eq, Structural)]
pub enum ContentError {
    /// The `===` line between front matter and body is missing.
    MissingSplitter,
    /// A release sets none of `cover_image`, `link` and `file`.
    NoDisplay,
}

/// The display of a release: its cover image if set, else its link, else
/// its audio file.
pub open spec fn display_of(raw: RawWorkMeta) -> Option<CoverOrImage> {
    match raw.cover_image {
        Some(c) => Some(CoverOrImage::Cover(c)),
        None => match raw.link {
            Some(l) => Some(CoverOrImage::Link(l)),
            None => match raw.file {
                Some(f) => Some(CoverOrImage::AudioFile(f)),
                None => None,
            },
        },
    }
}

impl WorkMeta {
    /// Completes a release record by choosing its display.
    pub fn from_raw(raw: RawWorkMeta) -> (r: Result<WorkMeta, ContentError>)
        ensures
            r is Err <==> display_of(raw) is None,
            r matches Err(e) ==> e == ContentError::NoDisplay,
            r matches Ok(w) ==> w == (WorkMeta {
                title: raw.title,
                author: raw.author,
                collaborators: raw.collaborators,
                date: raw.date,
                short: raw.short,
                display: display_of(raw)->0,
                cover_image: raw.cover_image,
                link: raw.link,
                file: raw.file,
                remix_original_work: raw.remix_original_work,
                featured: raw.featured,
                streaming: raw.streaming,
                duration_seconds: raw.duration_seconds,
            }),
    {
        let display = match &raw.cover_image {
            Some(c) => CoverOrImage::Cover(c.clone()),
            None => match &raw.link {
                Some(l) => CoverOrImage::Link(l.clone()),
                None => match &raw.file {
                    Some(f) => CoverOrImage::AudioFile(f.clone()),
                    None => {
                        return Err(ContentError::NoDisplay);
                    },
                },
            },
        };
        Ok(WorkMeta {
            title: raw.title,
            author: raw.author,
            collaborators: raw.collaborators,
            date: raw.date,
            short: raw.short,
            display,
            cover_image: raw.cover_image,
            link: raw.link,
            file: raw.file,
            remix_original_work: raw.remix_original_work,
            featured: raw.featured,
            streaming: raw.streaming,
            duration_seconds: raw.duration_seconds,
        })
    }
}

} // verus!
