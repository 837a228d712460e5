use vocadou_site::{album_page_path, member_page_path, news_page_path, work_page_path};
use vocadou_site::{bluesky_view, BlueskyView, OEmbedReply};
use vocadou_site::{asset_link_from_parsed, embed_from_parsed, thumbnail_from_parsed};
use vocadou_site::{
    get_link_image_thumb, member_page, plan_embed, work_reference, AlbumMeta, AlbumType, CoverOrImage,
    Date, Embed, EmbedError, FeatureUpload, FeaturedWorkMeta, MemberMeta, Metadata, NameMap,
    PostMeta, ProfileOrPost, Sections, SocialLink, SocialLinkType, Thumbnail, TracklistTrack,
    WorkMeta,
};

fn work(display: CoverOrImage, short: Option<&str>) -> WorkMeta {
    WorkMeta {
        title: "Song".to_string(),
        author: "alice".to_string(),
        collaborators: vec![],
        date: Date::new(2022, 7, 14).unwrap(),
        short: short.map(|s| s.to_string()),
        display,
        cover_image: None,
        link: None,
        file: None,
        remix_original_work: None,
        featured: false,
        streaming: vec![],
        duration_seconds: None,
    }
}

fn track(seconds: Option<i32>) -> TracklistTrack {
    TracklistTrack {
        author: "alice".to_string(),
        title: "t".to_string(),
        duration_seconds: seconds,
        link: None,
        on_site: true,
        external_author: false,
    }
}

#[test]
fn embeds_by_extension() {
    assert_eq!(plan_embed("https://a.example/x.png"), Ok(Embed::Image));
    assert_eq!(plan_embed("covers/x.jpeg"), Ok(Embed::Image));
    assert_eq!(plan_embed("miku:audio/x.ogg"), Ok(Embed::Audio));
    assert_eq!(plan_embed("x.wav"), Ok(Embed::Audio));
}

#[test]
fn embeds_by_platform() {
    assert_eq!(
        plan_embed("https://www.youtube.com/watch?v=abc123&t=5"),
        Ok(Embed::YoutubePlayer("https://www.youtube.com/embed/abc123".to_string()))
    );
    assert_eq!(plan_embed("https://youtube.com/watch?t=5"), Err(EmbedError::NoYoutubeId));
    assert_eq!(
        plan_embed("https://www.nicovideo.jp/watch/sm12345"),
        Ok(Embed::NicoPlayer("https://embed.nicovideo.jp/watch/sm12345".to_string()))
    );
    assert_eq!(plan_embed("https://nicovideo.jp/watch/12345"), Err(EmbedError::NoNicoId));
    assert_eq!(plan_embed("https://x.com/a/status/1"), Ok(Embed::Tweet));
    assert_eq!(plan_embed("https://bsky.app/profile/a/post/1"), Ok(Embed::Bluesky));
    assert_eq!(plan_embed("https://github.com/a"), Err(EmbedError::Unsupported));
    assert_eq!(plan_embed("not a link"), Err(EmbedError::NotAUrl));
}

#[test]
fn thumbnails() {
    assert_eq!(
        get_link_image_thumb("https://www.youtube.com/watch?v=xyz"),
        Ok(Thumbnail::Remote("https://img.youtube.com/vi/xyz/maxresdefault.jpg".to_string()))
    );
    assert_eq!(
        get_link_image_thumb("https://nicovideo.jp/watch/sm1"),
        Ok(Thumbnail::SiteImage("images/gray.jpg".to_string()))
    );
    assert_eq!(get_link_image_thumb("nope"), Err(EmbedError::NotAUrl));
    let w = work(CoverOrImage::Cover("c.jpg".to_string()), None);
    assert_eq!(w.thumbnail(), Ok(Thumbnail::SiteImage("c.jpg".to_string())));
    let w = work(CoverOrImage::AudioFile("a.ogg".to_string()), None);
    assert_eq!(w.thumbnail(), Ok(Thumbnail::Empty));
    let w = work(CoverOrImage::Link("https://youtube.com/watch?v=q".to_string()), None);
    assert_eq!(
        w.thumbnail(),
        Ok(Thumbnail::Remote("https://img.youtube.com/vi/q/maxresdefault.jpg".to_string()))
    );
}

#[test]
fn track_durations() {
    assert_eq!(track(Some(200)).duration_text(), Some("3:20".to_string()));
    assert_eq!(track(Some(65)).duration_text(), Some("1:05".to_string()));
    assert_eq!(track(Some(0)).duration_text(), Some("0:00".to_string()));
    assert_eq!(track(Some(3600)).duration_text(), Some("60:00".to_string()));
    assert_eq!(track(Some(-1)).duration_text(), None);
    assert_eq!(track(None).duration_text(), None);
}

fn album() -> AlbumMeta {
    AlbumMeta {
        title: "Album".to_string(),
        subtitle: Some("sub".to_string()),
        release_date: Date::new(2021, 1, 2).unwrap(),
        short: "about".to_string(),
        album_type: AlbumType::GroupExternal,
        contributors: vec!["alice".to_string(), "bob".to_string()],
        extra_contributors: vec!["Guest Person".to_string()],
        crossfade_demonstration: None,
        front_cover: "front.jpg".to_string(),
        front_cover_illustrator: "bob".to_string(),
        front_cover_illustrator_not_on_site: false,
        other_covers: vec![],
        playlist_link: None,
        tracklist: vec![track(Some(1))],
        sns_links: vec![],
    }
}

fn names() -> NameMap {
    let m = |h: &str, n: &str| MemberMeta {
        name: n.to_string(),
        ascii_name: h.to_string(),
        department: None,
        position: None,
        entry_year: None,
        short: String::new(),
        links: vec![],
    };
    NameMap::build(&vec![m("alice", "Alice"), m("bob", "Bob")]).unwrap()
}

#[test]
fn album_card_and_page() {
    let a = album();
    let t = names();
    assert_eq!(a.card_credit(&t), "Alice, Bob, Guest ...");
    let md = Metadata::for_album(&a, &t);
    assert_eq!(md.author, Some("Alice, Bob, Guest Person".to_string()));
    assert_eq!(md.date, Some("2021-01-02".to_string()));
    assert_eq!(md.section, Sections::AlbumPost);
    assert!(md.page_image.is_none());
}

#[test]
fn work_page_metadata() {
    let w = work(CoverOrImage::Link("https://youtube.com/watch?v=q".to_string()), None);
    let md = Metadata::for_work(&w, "body text");
    assert_eq!(md.description, Some("body text".to_string()));
    assert_eq!(md.page_image, Some("https://youtube.com/watch?v=q".to_string()));
    assert_eq!(md.canonical_link, format!("/works/releases/{}.html", work_reference("Song", "alice")));
    assert_eq!(md.date, Some("2022-07-14".to_string()));
    let w = work(CoverOrImage::AudioFile("a.ogg".to_string()), Some("summary"));
    let md = Metadata::for_work(&w, "body text");
    assert_eq!(md.description, Some("summary".to_string()));
    assert_eq!(md.page_image, None);
}

#[test]
fn post_page_metadata() {
    let p = PostMeta {
        title: "News".to_string(),
        author: "alice".to_string(),
        header_image: Some("h.png".to_string()),
        date: Date::new(2025, 6, 1).unwrap(),
        short: String::new(),
        official: true,
        social_links: vec![],
    };
    assert_eq!(p.thumbnail_path(), "images/h.png");
    let md = Metadata::for_post(&p, "hello", "https://x/h.png".to_string());
    assert_eq!(md.description, Some("hello".to_string()));
    assert_eq!(md.page_image, Some("https://x/h.png".to_string()));
    assert!(md.canonical_link.starts_with("/news/"));
    let q = PostMeta { header_image: None, ..p };
    assert_eq!(q.thumbnail_path(), "images/gray.jpg");
}

#[test]
fn member_page_paths() {
    assert_eq!(member_page("alice"), "/members/alice.html");
}

#[test]
fn featured_work_record() {
    let f = FeaturedWorkMeta {
        title: "t".to_string(),
        description: "d".to_string(),
        author: "alice".to_string(),
        additional_publish_links: vec![SocialLink {
            social_link_type: SocialLinkType::Youtube,
            profile_or_post: ProfileOrPost::Post("watch?v=1".to_string()),
        }],
        video: FeatureUpload::YouTube("1".to_string()),
    };
    assert_eq!(f.additional_publish_links[0].display_string(), "https://www.youtube.com/watch?v=1");
    assert_eq!(f.video, FeatureUpload::YouTube("1".to_string()));
}

fn parts(domain: Option<&str>, pairs: &[(&str, &str)], segs: Option<&[&str]>) -> vocadou_site::UrlParts {
    vocadou_site::UrlParts {
        serialization: "https://given.example/".to_string(),
        domain: domain.map(|d| d.to_string()),
        query_pairs: pairs.iter().map(|(k, v)| (k.to_string(), v.to_string())).collect(),
        path_segments: segs.map(|s| s.iter().map(|x| x.to_string()).collect()),
    }
}

#[test]
fn embed_from_given_parse() {
    let yt = Some(parts(Some("www.youtube.com"), &[("t", "1"), ("v", "first"), ("v", "second")], Some(&["watch"])));
    assert_eq!(
        embed_from_parsed(&yt),
        Ok(Embed::YoutubePlayer("https://www.youtube.com/embed/first".to_string()))
    );
    let nico = Some(parts(Some("nicovideo.jp"), &[], Some(&["watch", "sm9", "sm10"])));
    assert_eq!(
        embed_from_parsed(&nico),
        Ok(Embed::NicoPlayer("https://embed.nicovideo.jp/watch/sm9".to_string()))
    );
    let no_base = Some(parts(Some("nicovideo.jp"), &[], None));
    assert_eq!(embed_from_parsed(&no_base), Err(EmbedError::NoNicoId));
    assert_eq!(embed_from_parsed(&Some(parts(None, &[], None))), Err(EmbedError::NoDomain));
    assert_eq!(embed_from_parsed(&None), Err(EmbedError::NotAUrl));
}

#[test]
fn thumbnail_and_type_from_given_parse() {
    let yt = Some(parts(Some("youtube.com"), &[("v", "id9")], Some(&[])));
    assert_eq!(
        thumbnail_from_parsed(&yt),
        Ok(Thumbnail::Remote("https://img.youtube.com/vi/id9/maxresdefault.jpg".to_string()))
    );
    let other = Some(parts(Some("bsky.app"), &[], Some(&[])));
    assert_eq!(
        thumbnail_from_parsed(&other),
        Ok(Thumbnail::SiteImage("images/gray.jpg".to_string()))
    );
    assert_eq!(SocialLinkType::from_parsed(&other), Ok(SocialLinkType::Bluesky));
    assert_eq!(
        SocialLinkType::from_parsed(&None),
        Err(vocadou_site::LinkError::NotAUrl)
    );
}

#[test]
fn query_and_segment_lookup() {
    let pairs = vec![("a".to_string(), "1".to_string()), ("v".to_string(), "x".to_string())];
    assert_eq!(vocadou_site::query_value(&pairs, "v"), Some("x".to_string()));
    assert_eq!(vocadou_site::query_value(&pairs, "b"), None);
    let segs = vec!["watch".to_string(), "sm1".to_string()];
    assert_eq!(vocadou_site::segment_with_prefix(&segs, "sm"), Some("sm1".to_string()));
    assert_eq!(vocadou_site::segment_with_prefix(&segs, "zz"), None);
}

#[test]
fn asset_links_from_given_parse() {
    let config = vocadou_site::SiteConfig::new(
        "https://site".to_string(),
        "https://bin".to_string(),
        ".".to_string(),
    );
    assert_eq!(
        asset_link_from_parsed(&config, "miku:a.ogg", None),
        "https://bin/miku:a.ogg"
    );
    assert_eq!(asset_link_from_parsed(&config, "/x.png", None), "https://site/x.png");
    assert_eq!(
        asset_link_from_parsed(&config, "whatever", Some(parts(None, &[], None))),
        "https://given.example/"
    );
}

#[test]
fn page_files_follow_the_site_layout() {
    assert_eq!(member_page_path("alice"), "members/alice.html");
    assert_eq!(work_page_path("Song", "alice"), format!("works/releases/{}.html", work_reference("Song", "alice")));
    assert_eq!(
        album_page_path("Album", "front.jpg"),
        format!("works/albums/{}.html", vocadou_site::album_reference("Album", "front.jpg"))
    );
    let p = PostMeta {
        title: "News".to_string(),
        author: "alice".to_string(),
        header_image: None,
        date: Date::new(2025, 6, 1).unwrap(),
        short: String::new(),
        official: false,
        social_links: vec![],
    };
    assert_eq!(news_page_path(&p), format!("news/{}.html", vocadou_site::post_reference(&p)));
}

#[test]
fn bluesky_fallbacks() {
    assert_eq!(bluesky_view(OEmbedReply::Failed), BlueskyView::PlainLink);
    assert_eq!(
        bluesky_view(OEmbedReply::Answer { html: Some("<b>x</b>".to_string()), url: Some("u".to_string()) }),
        BlueskyView::Html("<b>x</b>".to_string())
    );
    assert_eq!(
        bluesky_view(OEmbedReply::Answer { html: None, url: Some("u".to_string()) }),
        BlueskyView::LinkedImage("u".to_string())
    );
    assert_eq!(bluesky_view(OEmbedReply::Answer { html: None, url: None }), BlueskyView::PlainLink);
}

#[test]
fn urls_are_recognised() {
    assert!(vocadou_site::is_url("https://example.com/a.png"));
    assert!(!vocadou_site::is_url("images/a.png"));
}

#[test]
fn distinct_links_and_cover_headings() {
    let mut m = MemberMeta {
        name: "a".to_string(),
        ascii_name: "a".to_string(),
        department: None,
        position: None,
        entry_year: None,
        short: String::new(),
        links: vec!["https://x.com/a".to_string(), "https://github.com/a".to_string()],
    };
    assert!(m.has_distinct_links());
    m.links.push("https://x.com/a".to_string());
    assert!(!m.has_distinct_links());
    let mut a = album();
    assert!(a.has_distinct_cover_headings());
    let ill = |l: &str| vocadou_site::Illustration {
        link: l.to_string(),
        illustrator: "b".to_string(),
        illustrator_is_not_on_site: false,
    };
    a.other_covers.push(("back".to_string(), ill("b.jpg")));
    a.other_covers.push(("inner".to_string(), ill("i.jpg")));
    assert!(a.has_distinct_cover_headings());
    a.other_covers.push(("back".to_string(), ill("c.jpg")));
    assert!(!a.has_distinct_cover_headings());
}
