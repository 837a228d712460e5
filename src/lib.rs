//! Content graph of a club homepage: member records, releases, albums and
//! posts, the table that resolves member handles to display names, the
//! checks that every reference resolves, URL slugs, and the sorted index
//! that page rendering reads.
//!
//! The laws the library states are proof functions beside the code they
//! speak of: `names::lemma_lookup_after_build`,
//! `validate::lemma_known_handles_pass`, `validate::lemma_unknown_handle_fails`,
//! `slug::lemma_slug_deterministic`, `slug::lemma_slug_keeps_hashes` and
//! `slug::lemma_post_dates_separate`.

pub mod album;
pub mod config;
pub mod date;
pub mod embed;
pub mod featured_work;
pub mod links;
pub mod member;
pub mod metadata;
pub mod names;
pub mod pipeline;
pub mod post;
pub mod read;
pub mod sitemap;
pub mod slug;
pub mod text;
pub mod validate;
pub mod work;

pub use album::{AlbumMeta, AlbumType, Illustration, TracklistTrack};
pub use config::{
    asset_link_from_parsed, jinja_member, lnk, lnk_s3, set_external_bin_url, set_site_root,
    set_site_url, site_root, site_url, slash_guard, SiteConfig,
};
pub use date::Date;
pub use embed::{
    bluesky_view, embed_from_parsed, get_link_image_thumb, plan_embed, query_value,
    segment_with_prefix, thumbnail_from_parsed, BlueskyView, Embed, EmbedError, OEmbedReply,
    Thumbnail,
};
pub use featured_work::{FeatureUpload, FeaturedWorkMeta};
pub use links::{is_url, LinkError, ProfileOrPost, SocialLink, SocialLinkType, UrlParts};
pub use member::{MemberMeta, RoleTier};
pub use metadata::{
    album_page_path, member_page, member_page_path, news_page_path, work_page_path, Metadata,
    Sections,
};
pub use names::{NameMap, NameMapError};
pub use pipeline::{check_content, BuildData, DisplayWorkMeta, SiteData};
pub use post::{PostMeta, RawPostMeta};
pub use read::{split_front_matter, FRONT_MATTER_SPLIT};
pub use sitemap::{sort_listed, ListOrder, SiteMap};
pub use slug::{album_reference, post_reference, slug, slug_from_hashes, work_reference};
pub use text::shorten;
pub use validate::{validate, BuildError, RefField, SourceFile};
pub use work::{ContentError, CoverOrImage, RawWorkMeta, WorkMeta};
