use vocadou_site::{
    album_reference, post_reference, shorten, slug, slug_from_hashes, work_reference, Date,
    MemberMeta, PostMeta, RoleTier, SiteMap,
};

fn member(name: &str, position: Option<&str>) -> MemberMeta {
    MemberMeta {
        name: name.to_string(),
        ascii_name: name.to_lowercase(),
        department: None,
        position: position.map(|p| p.to_string()),
        entry_year: None,
        short: String::new(),
        links: vec![],
    }
}

fn post(title: &str, author: &str, d: Date, official: bool) -> PostMeta {
    PostMeta {
        title: title.to_string(),
        author: author.to_string(),
        header_image: None,
        date: d,
        short: String::new(),
        official,
        social_links: vec![],
    }
}

fn d(y: u16, m: u8, day: u8) -> Date {
    Date::new(y, m, day).unwrap()
}

#[test]
fn member_order_by_role_then_name() {
    let members = vec![
        member("B", Some("PR officer")),
        member("A", Some("president")),
        member("C", None),
    ];
    let site = SiteMap::assemble(members, vec![], vec![], vec![]);
    let names: Vec<&str> = site.members.iter().map(|m| m.name.as_str()).collect();
    assert_eq!(names, vec!["A", "B", "C"]);
}

#[test]
fn member_order_full_tiers() {
    let members = vec![
        member("Zed", None),
        member("Yui", Some("composer")),
        member("Xan", Some("広報")),
        member("Amy", None),
        member("Wen", Some("副代表")),
        member("Vic", Some("代表")),
        member("Bea", Some("illustrator")),
        member("Uma", Some("vice-president")),
    ];
    let site = SiteMap::assemble(members, vec![], vec![], vec![]);
    let names: Vec<&str> = site.members.iter().map(|m| m.name.as_str()).collect();
    assert_eq!(names, vec!["Vic", "Uma", "Wen", "Xan", "Bea", "Yui", "Amy", "Zed"]);
}

#[test]
fn role_tiers_parse() {
    assert_eq!(member("a", Some("代表")).role_tier(), RoleTier::President);
    assert_eq!(member("a", Some("vice-president")).role_tier(), RoleTier::VicePresident);
    assert_eq!(member("a", Some("広報")).role_tier(), RoleTier::PrOfficer);
    assert_eq!(member("a", Some("President")).role_tier(), RoleTier::OtherRole);
    assert_eq!(member("a", None).role_tier(), RoleTier::NoRole);
}

#[test]
fn posts_newest_first() {
    let posts = vec![
        post("a", "x", d(2024, 1, 1), false),
        post("b", "x", d(2025, 6, 1), true),
        post("c", "y", d(2024, 12, 31), false),
    ];
    let site = SiteMap::assemble(vec![], posts, vec![], vec![]);
    let dates: Vec<String> = site.posts.iter().map(|p| p.date.to_iso_string()).collect();
    assert_eq!(dates, vec!["2025-06-01", "2024-12-31", "2024-01-01"]);
    let official: Vec<&str> = site.official_posts().iter().map(|p| p.title.as_str()).collect();
    assert_eq!(official, vec!["b"]);
    let others: Vec<&str> = site.member_posts().iter().map(|p| p.title.as_str()).collect();
    assert_eq!(others, vec!["c", "a"]);
    let by_x: Vec<&str> = site.posts_of("x").iter().map(|p| p.title.as_str()).collect();
    assert_eq!(by_x, vec!["b", "a"]);
}

#[test]
fn slug_is_deterministic() {
    assert_eq!(work_reference("Song", "alice"), work_reference("Song", "alice"));
    assert_eq!(slug("a", "b"), slug("a", "b"));
}

#[test]
fn slug_differs_with_fields() {
    let base = work_reference("Song", "alice");
    assert_ne!(base, work_reference("Song 2", "alice"));
    assert_ne!(base, work_reference("Song", "bob"));
    assert_ne!(album_reference("Song", "alice"), album_reference("alice", "Song"));
    assert_eq!(base.len(), 22);
    assert!(base.chars().all(|c| c.is_ascii_alphanumeric() || c == '-' || c == '_'));
    assert_ne!(base, "Song");
}

#[test]
fn slug_of_hashes_encodes_little_endian_base64() {
    assert_eq!(slug_from_hashes(0, 0), "AAAAAAAAAAAAAAAAAAAAAA");
    assert_eq!(slug_from_hashes(0, 1), "AQAAAAAAAAAAAAAAAAAAAA");
    assert_eq!(slug_from_hashes(u64::MAX, u64::MAX), "_____________________w");
    assert_eq!(slug_from_hashes(1, 0), "AAAAAAAAAAABAAAAAAAAAA");
}

#[test]
fn post_slug_depends_on_date() {
    let a = post("t", "x", d(2024, 1, 1), false);
    let b = post("t", "x", d(2024, 1, 2), false);
    assert_ne!(post_reference(&a), post_reference(&b));
    assert_eq!(post_reference(&a), post_reference(&a.clone()));
    assert_eq!(post_reference(&a), slug("x", "t2024-01-01"));
}

#[test]
fn shorten_keeps_150_characters() {
    let long: String = "あ".repeat(200);
    assert_eq!(shorten(&long).chars().count(), 150);
    assert_eq!(shorten("short"), "short");
    assert_eq!(shorten(""), "");
}

#[test]
fn dates_format_and_validate() {
    assert_eq!(d(2024, 3, 9).to_iso_string(), "2024-03-09");
    assert_eq!(d(7, 12, 31).to_iso_string(), "0007-12-31");
    assert!(Date::new(2024, 13, 1).is_none());
    assert!(Date::new(2024, 1, 0).is_none());
    assert!(Date::new(10000, 1, 1).is_none());
    assert!(d(2024, 12, 31).key() < d(2025, 1, 1).key());
}
