use vocadou_site::{
    check_content, AlbumMeta, AlbumType, BuildError, Date, DisplayWorkMeta, MemberMeta, NameMap,
    NameMapError, PostMeta, RefField, SiteConfig, SourceFile, TracklistTrack, WorkMeta,
};
use vocadou_site::{validate, CoverOrImage};

fn member(handle: &str, name: &str, position: Option<&str>) -> MemberMeta {
    MemberMeta {
        name: name.to_string(),
        ascii_name: handle.to_string(),
        department: None,
        position: position.map(|p| p.to_string()),
        entry_year: None,
        short: String::new(),
        links: vec![],
    }
}

fn date(y: u16, m: u8, d: u8) -> Date {
    Date::new(y, m, d).unwrap()
}

fn work(title: &str, author: &str, collaborators: &[&str]) -> WorkMeta {
    WorkMeta {
        title: title.to_string(),
        author: author.to_string(),
        collaborators: collaborators.iter().map(|c| c.to_string()).collect(),
        date: date(2024, 1, 1),
        short: None,
        display: CoverOrImage::Cover("cover.jpg".to_string()),
        cover_image: Some("cover.jpg".to_string()),
        link: None,
        file: None,
        remix_original_work: None,
        featured: false,
        streaming: vec![],
        duration_seconds: None,
    }
}

fn post(title: &str, author: &str, d: Date, official: bool) -> PostMeta {
    PostMeta {
        title: title.to_string(),
        author: author.to_string(),
        header_image: None,
        date: d,
        short: String::new(),
        official,
        social_links: vec![],
    }
}

fn album(contributors: &[&str], extra: &[&str], tracks: Vec<TracklistTrack>) -> AlbumMeta {
    AlbumMeta {
        title: "Album".to_string(),
        subtitle: None,
        release_date: date(2024, 5, 5),
        short: String::new(),
        album_type: AlbumType::ToudaiVocadou,
        contributors: contributors.iter().map(|c| c.to_string()).collect(),
        extra_contributors: extra.iter().map(|c| c.to_string()).collect(),
        crossfade_demonstration: None,
        front_cover: "front.jpg".to_string(),
        front_cover_illustrator: "alice".to_string(),
        front_cover_illustrator_not_on_site: false,
        other_covers: vec![],
        playlist_link: None,
        tracklist: tracks,
        sns_links: vec![],
    }
}

fn track(author: &str, external_author: bool) -> TracklistTrack {
    TracklistTrack {
        author: author.to_string(),
        title: "Track".to_string(),
        duration_seconds: None,
        link: None,
        on_site: false,
        external_author,
    }
}

fn file<M>(path: &str, meta: M) -> SourceFile<M> {
    SourceFile { path: path.to_string(), meta, text: String::new() }
}

#[test]
fn lookup_returns_each_display_name() {
    let members = vec![member("alice", "Alice", None), member("bob", "ボブ", None)];
    let t = NameMap::build(&members).unwrap();
    assert_eq!(t.get("alice").map(|s| s.as_str()), Some("Alice"));
    assert_eq!(t.get("bob").map(|s| s.as_str()), Some("ボブ"));
    assert_eq!(t.get("Alice"), None);
    assert!(!t.contains_key("carol"));
}

#[test]
fn duplicate_handle_is_refused() {
    let members = vec![member("alice", "Alice", None), member("alice", "Alice 2", None)];
    match NameMap::build(&members) {
        Err(NameMapError::DuplicateHandle(h)) => assert_eq!(h, "alice"),
        Ok(_) => panic!("duplicate accepted"),
    }
}

#[test]
fn known_handles_validate() {
    let members = vec![member("alice", "Alice", None), member("bob", "Bob", None)];
    let t = NameMap::build(&members).unwrap();
    let works = vec![file("works/a.md", work("Song", "alice", &["bob"]))];
    let albums = vec![file("album/x.md", album(&["alice"], &["Guest"], vec![track("bob", false)]))];
    let posts = vec![file("posts/p.md", post("Hi", "bob", date(2024, 1, 1), false))];
    assert!(validate(&t, &works, &albums, &posts).is_ok());
}

#[test]
fn unknown_collaborator_is_reported() {
    let members = vec![member("alice", "Alice", None)];
    let t = NameMap::build(&members).unwrap();
    let works = vec![file("works/a.md", work("Song", "alice", &["zed"]))];
    match validate(&t, &works, &vec![], &vec![]) {
        Err(BuildError::UnresolvedReference { path, field, value }) => {
            assert_eq!(path, "works/a.md");
            assert_eq!(field, RefField::Collaborators);
            assert_eq!(value, "zed");
        }
        _ => panic!("expected an unresolved reference"),
    }
}

#[test]
fn unknown_album_contributor_is_reported() {
    let t = NameMap::build(&vec![member("alice", "Alice", None)]).unwrap();
    let albums = vec![file("album/x.md", album(&["alice", "Nobody"], &[], vec![]))];
    match validate(&t, &vec![], &albums, &vec![]) {
        Err(BuildError::UnresolvedReference { path, field, value }) => {
            assert_eq!(path, "album/x.md");
            assert_eq!(field, RefField::Contributors);
            assert_eq!(value, "Nobody");
        }
        _ => panic!("expected an unresolved reference"),
    }
}

#[test]
fn external_track_author_is_exempt() {
    let t = NameMap::build(&vec![member("alice", "Alice", None)]).unwrap();
    let ok = vec![file("album/x.md", album(&["alice"], &[], vec![track("Someone Else", true)]))];
    assert!(validate(&t, &vec![], &ok, &vec![]).is_ok());
    let bad = vec![file("album/y.md", album(&["alice"], &[], vec![track("Someone Else", false)]))];
    match validate(&t, &vec![], &bad, &vec![]) {
        Err(BuildError::UnresolvedReference { path, field, value }) => {
            assert_eq!(path, "album/y.md");
            assert_eq!(field, RefField::TrackAuthor);
            assert_eq!(value, "Someone Else");
        }
        _ => panic!("expected an unresolved reference"),
    }
}

#[test]
fn unknown_post_author_is_reported() {
    let t = NameMap::build(&vec![member("alice", "Alice", None)]).unwrap();
    let posts = vec![file("posts/p.md", post("Hi", "ALICE", date(2024, 1, 1), false))];
    match validate(&t, &vec![], &vec![], &posts) {
        Err(BuildError::UnresolvedReference { path, field, value }) => {
            assert_eq!(path, "posts/p.md");
            assert_eq!(field, RefField::Author);
            assert_eq!(value, "ALICE");
        }
        _ => panic!("expected an unresolved reference"),
    }
}

#[test]
fn end_to_end_minimal_fixture_builds() {
    let members = vec![member("alice", "Alice", None)];
    let works = vec![file("works/song.md", work("Song", "alice", &[]))];
    let data = check_content(&members, &works, &vec![], &vec![]).unwrap();
    assert_eq!(data.name_map.get("alice").unwrap(), "Alice");
    let config = SiteConfig::new(
        "https://example.org".to_string(),
        "https://assets.example.org".to_string(),
        ".".to_string(),
    );
    let entry =
        DisplayWorkMeta::from_work(0, &works[0].meta, &data.name_map, &config, String::new())
            .unwrap();
    assert_eq!(entry.author_displayname, "Alice");
    assert_eq!(entry.author_link, "https://example.org/members/alice.html");
    assert!(entry.on_site_link.starts_with("https://example.org/works/releases/"));
    assert!(entry.on_site_link.ends_with(".html"));
}

#[test]
fn end_to_end_unknown_author_fails() {
    let members = vec![member("alice", "Alice", None)];
    let works = vec![file("works/song.md", work("Song", "bob", &[]))];
    match check_content(&members, &works, &vec![], &vec![]) {
        Err(e) => {
            let msg = e.message();
            assert!(msg.contains("bob"));
            assert!(msg.contains("works/song.md"));
            assert!(msg.contains("author"));
        }
        Ok(_) => panic!("build accepted an unknown author"),
    }
}

#[test]
fn duplicate_members_fail_the_build() {
    let members = vec![member("alice", "Alice", None), member("alice", "Other", None)];
    match check_content(&members, &vec![], &vec![], &vec![]) {
        Err(BuildError::DuplicateHandle { handle }) => assert_eq!(handle, "alice"),
        _ => panic!("expected a duplicate handle"),
    }
}

#[test]
fn credit_line_resolves_and_dedups() {
    let members = vec![member("alice", "Alice", None), member("bob", "Bob", None)];
    let t = NameMap::build(&members).unwrap();
    let a = album(&["alice", "bob", "alice"], &["Guest", "Bob"], vec![]);
    assert_eq!(a.contributors_str(&t), "Alice, Bob, Guest");
    assert_eq!(a.contributors_str_naive(), "alice, bob, Guest, Bob");
}

#[test]
fn works_list_entry_needs_resolved_collaborators() {
    let t = NameMap::build(&vec![member("alice", "Alice", None)]).unwrap();
    let config = SiteConfig::new("https://e.org/".to_string(), String::new(), String::new());
    let w = work("Song", "alice", &["ghost"]);
    assert!(DisplayWorkMeta::from_work(3, &w, &t, &config, String::new()).is_none());
    let w = work("Song", "alice", &["alice"]);
    let d = DisplayWorkMeta::from_work(3, &w, &t, &config, "<p></p>".to_string()).unwrap();
    assert_eq!(d.id, 3);
    assert_eq!(d.collaborators, vec!["Alice".to_string()]);
    assert_eq!(d.author_link, "https://e.org//members/alice.html");
    assert_eq!(d.embed_html, "<p></p>");
}

#[test]
fn first_unresolved_reference_is_reported() {
    let t = NameMap::build(&vec![member("alice", "Alice", None)]).unwrap();
    let works = vec![
        file("works/ok.md", work("Fine", "alice", &["alice"])),
        file("works/bad.md", work("Song", "alice", &["x1", "x2"])),
    ];
    let albums = vec![file("album/bad.md", album(&["y1"], &[], vec![]))];
    let posts = vec![file("posts/bad.md", post("Hi", "z1", date(2024, 1, 1), false))];
    match validate(&t, &works, &albums, &posts) {
        Err(BuildError::UnresolvedReference { path, field, value }) => {
            assert_eq!(path, "works/bad.md");
            assert_eq!(field, RefField::Collaborators);
            assert_eq!(value, "x1");
        }
        _ => panic!("expected an unresolved reference"),
    }
    match validate(&t, &vec![], &albums, &posts) {
        Err(BuildError::UnresolvedReference { path, value, .. }) => {
            assert_eq!(path, "album/bad.md");
            assert_eq!(value, "y1");
        }
        _ => panic!("expected an unresolved reference"),
    }
}
