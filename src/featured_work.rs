//! A work that a member highlights on their page.

use vstd::prelude::*;

use crate::links::SocialLink;

verus! {

/// Where the highlighted work's media lives.
#[derive(Clone, Debug, PartialEq, Eq, Hash)]
pub enum FeatureUpload {
    AudioFile(String),
    VideoFile(String),
    YouTube(String),
}

/// A work that a member highlights, with further places it was published.
#[derive(Clone, Debug)]
pub struct FeaturedWorkMeta {
    pub title: String,
    pub description: String,
    pub author: String,
    /// Each link once.
    pub additional_publish_links: Vec<SocialLink>,
    pub video: FeatureUpload,
}

} // verus!
