use vocadou_site::{
    jinja_member, lnk, lnk_s3, set_external_bin_url, set_site_root, set_site_url, site_root,
    site_url, slash_guard, split_front_matter, AlbumMeta, AlbumType, ContentError, CoverOrImage,
    Date, LinkError, MemberMeta, Metadata, PostMeta, ProfileOrPost, RawPostMeta, RawWorkMeta,
    Sections, SiteConfig, SocialLink, SocialLinkType, WorkMeta,
};

fn config() -> SiteConfig {
    SiteConfig::new(
        "https://site.example".to_string(),
        "https://bin.example".to_string(),
        "content".to_string(),
    )
}

fn raw_work(cover: Option<&str>, link: Option<&str>, file: Option<&str>) -> RawWorkMeta {
    RawWorkMeta {
        title: "Song".to_string(),
        author: "alice".to_string(),
        collaborators: vec![],
        date: Date::new(2024, 2, 2).unwrap(),
        short: None,
        cover_image: cover.map(|s| s.to_string()),
        link: link.map(|s| s.to_string()),
        file: file.map(|s| s.to_string()),
        remix_original_work: None,
        featured: true,
        streaming: vec![],
        duration_seconds: Some(200),
    }
}

#[test]
fn front_matter_splits_at_first_separator() {
    let (front, body) = split_front_matter("title = \"a\"\n===\nbody === more").unwrap();
    assert_eq!(front, "title = \"a\"\n");
    assert_eq!(body, "\nbody === more");
    assert_eq!(split_front_matter("no separator"), Err(ContentError::MissingSplitter));
    assert_eq!(split_front_matter("=="), Err(ContentError::MissingSplitter));
    assert_eq!(split_front_matter("==="), Ok((String::new(), String::new())));
}

#[test]
fn work_display_prefers_cover_then_link_then_file() {
    let w = WorkMeta::from_raw(raw_work(Some("c.jpg"), Some("https://y"), Some("f.ogg"))).unwrap();
    assert_eq!(w.display, CoverOrImage::Cover("c.jpg".to_string()));
    assert!(w.featured);
    assert_eq!(w.duration_seconds, Some(200));
    let w = WorkMeta::from_raw(raw_work(None, Some("https://y"), Some("f.ogg"))).unwrap();
    assert_eq!(w.display, CoverOrImage::Link("https://y".to_string()));
    let w = WorkMeta::from_raw(raw_work(None, None, Some("f.ogg"))).unwrap();
    assert_eq!(w.display, CoverOrImage::AudioFile("f.ogg".to_string()));
    assert_eq!(WorkMeta::from_raw(raw_work(None, None, None)), Err(ContentError::NoDisplay));
}

#[test]
fn post_summary_defaults_to_empty() {
    let raw = RawPostMeta {
        title: "t".to_string(),
        author: "a".to_string(),
        header_image: None,
        date: Date::new(2024, 1, 1).unwrap(),
        short: None,
        official: false,
        social_links: vec![],
    };
    let p = PostMeta::from_raw(raw.clone());
    assert_eq!(p.short, "");
    let p = PostMeta::from_raw(RawPostMeta { short: Some("s".to_string()), ..raw });
    assert_eq!(p.short, "s");
}

#[test]
fn social_link_types_by_domain() {
    assert_eq!(SocialLinkType::from_url("https://twitter.com/abc"), Ok(SocialLinkType::Twitter));
    assert_eq!(SocialLinkType::from_url("https://x.com/abc"), Ok(SocialLinkType::Xitter));
    assert_eq!(
        SocialLinkType::from_url("https://www.youtube.com/watch?v=1"),
        Ok(SocialLinkType::Youtube)
    );
    assert_eq!(SocialLinkType::from_url("https://linktr.ee/me"), Ok(SocialLinkType::LinkTree));
    assert_eq!(
        SocialLinkType::from_url("https://soundcloud.com/me"),
        Ok(SocialLinkType::Soundcloud)
    );
    assert_eq!(
        SocialLinkType::from_url("https://example.com/me"),
        Ok(SocialLinkType::OtherUnknown("example.com".to_string()))
    );
    assert_eq!(SocialLinkType::from_url("not a url"), Err(LinkError::NotAUrl));
    assert_eq!(SocialLinkType::from_url("https://127.0.0.1/x"), Err(LinkError::NoDomain));
}

#[test]
fn social_icons() {
    assert_eq!(SocialLinkType::Xitter.to_svg_icon(), "twitter.svg");
    assert_eq!(SocialLinkType::NicoDouga.to_svg_icon(), "niconico.svg");
    assert_eq!(SocialLinkType::OtherUnknown("a.b".to_string()).to_svg_icon(), "link.svg");
}

#[test]
fn social_link_addresses() {
    let l = SocialLink {
        social_link_type: SocialLinkType::Github,
        profile_or_post: ProfileOrPost::Profile("me".to_string()),
    };
    assert_eq!(l.display_string(), "https://github.com/me");
    let l = SocialLink {
        social_link_type: SocialLinkType::Spotify,
        profile_or_post: ProfileOrPost::Post("p/1".to_string()),
    };
    assert_eq!(l.display_string(), "/p/1");
    assert_eq!(ProfileOrPost::Post("x".to_string()).display_string(), "x");
}

#[test]
fn links_are_rewritten_under_the_right_origin() {
    let c = config();
    assert_eq!(slash_guard("https://a", "/b"), "https://a/b");
    assert_eq!(slash_guard("https://a", "b"), "https://a/b");
    assert_eq!(lnk(&c, "news.html"), "https://site.example/news.html");
    assert_eq!(lnk_s3(&c, "images/x.jpg"), "https://site.example/images/x.jpg");
    assert_eq!(lnk_s3(&c, "https://other.example"), "https://other.example/");
}

#[test]
fn config_setters_and_getters() {
    let mut c = config();
    set_site_url(&mut c, "https://new".to_string());
    set_external_bin_url(&mut c, "https://bin2".to_string());
    set_site_root(&mut c, "root".to_string());
    assert_eq!(site_url(&c), "https://new");
    assert_eq!(c.external_bin_url, "https://bin2");
    assert_eq!(site_root(&c), "root");
}

#[test]
fn member_link_markup_is_escaped() {
    let c = config();
    assert_eq!(
        jinja_member(&c, "alice"),
        "<a href=\"https://site.example/members/alice.html\">alice</a>"
    );
    assert_eq!(
        jinja_member(&c, "a<b"),
        "<a href=\"https://site.example/members/a&lt;b.html\">a&lt;b</a>"
    );
}

#[test]
fn member_page_metadata() {
    let m = MemberMeta {
        name: "ミク".to_string(),
        ascii_name: "miku".to_string(),
        department: None,
        position: None,
        entry_year: Some(2024),
        short: "hello".to_string(),
        links: vec![],
    };
    let md = MemberMeta::to_metadata(m);
    assert_eq!(md.page_title, "ミク(miku) - 東京大学ボカロP同好会");
    assert_eq!(md.page_image, Some("images/icon/miku.jpg".to_string()));
    assert_eq!(md.canonical_link, "members/miku.html");
    assert_eq!(md.section, Sections::MemberProfile);
    assert_eq!(md.author, Some("ミク".to_string()));
    let same = MemberMeta {
        name: "bob".to_string(),
        ascii_name: "bob".to_string(),
        department: None,
        position: None,
        entry_year: None,
        short: String::new(),
        links: vec![],
    };
    assert_eq!(MemberMeta::to_metadata(same).page_title, "bob - 東京大学ボカロP同好会");
}

#[test]
fn album_page_metadata() {
    let a = AlbumMeta {
        title: "Album".to_string(),
        subtitle: None,
        release_date: Date::new(2023, 11, 3).unwrap(),
        short: "about".to_string(),
        album_type: AlbumType::Solo,
        contributors: vec!["alice".to_string()],
        extra_contributors: vec!["Guest".to_string()],
        crossfade_demonstration: None,
        front_cover: "front.jpg".to_string(),
        front_cover_illustrator: "alice".to_string(),
        front_cover_illustrator_not_on_site: false,
        other_covers: vec![],
        playlist_link: None,
        tracklist: vec![],
        sns_links: vec![],
    };
    let md = Metadata::from_album(a);
    assert_eq!(md.date, Some("2023-11-03".to_string()));
    assert_eq!(md.author, Some("alice, Guest".to_string()));
    assert_eq!(md.section, Sections::AlbumPost);
    assert_eq!(
        md.canonical_link,
        format!("/works/albums/{}.html", vocadou_site::album_reference("Album", "front.jpg"))
    );
}

#[test]
fn sections_types_and_navigation() {
    assert_eq!(Sections::MemberProfile.page_type(), "profile");
    assert_eq!(Sections::NewsPost.page_type(), "article");
    assert_eq!(Sections::Home.page_type(), "website");
    assert_eq!(Sections::WorksPost.nav_section(), Sections::Works);
    assert_eq!(Sections::Join.nav_section(), Sections::Join);
}
