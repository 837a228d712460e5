//! Albums: collections of tracks by several members.

use vstd::prelude::*;

use crate::date::{duration_spec, format_duration, Date};
use crate::names::NameMap;
use crate::text::{
    all_distinct, dedup, distinct_strings, join, join_strings, prefix_chars, push_unique, str_views,
    views,
};

verus! {

/// What kind of album it is.
#[derive(Clone, Copy, Debug, PartialEq, Eq, Structural)]
pub enum AlbumType {
    Solo,
    GroupExternal,
    ToudaiVocadou,
}

/// An additional cover illustration.
#[derive(Clone, Debug)]
pub struct Illustration {
    pub link: String,
    pub illustrator: String,
    pub illustrator_is_not_on_site: bool,
}

/// One track of an album.
#[derive(Clone, Debug)]
pub struct TracklistTrack {
    /// A member handle, or free text when `external_author` is set.
    pub author: String,
    pub title: String,
    pub duration_seconds: Option<i32>,
    pub link: Option<String>,
    /// The track is a release on this site.
    pub on_site: bool,
    /// The author is not a member; `author` is then free text.
    pub external_author: bool,
}

/// An album record.
#[derive(Clone, Debug)]
pub struct AlbumMeta {
    pub title: String,
    pub subtitle: Option<String>,
    pub release_date: Date,
    pub short: String,
    pub album_type: AlbumType,
    /// Handles of the members who took part.
    pub contributors: Vec<String>,
    /// Names of contributors who are not members, as free text.
    pub extra_contributors: Vec<String>,
    pub crossfade_demonstration: Option<String>,
    pub front_cover: String,
    pub front_cover_illustrator: String,
    pub front_cover_illustrator_not_on_site: bool,
    /// Further covers, each under its own heading.
    pub other_covers: Vec<(String, Illustration)>,
    pub playlist_link: Option<String>,
    pub tracklist: Vec<TracklistTrack>,
    pub sns_links: Vec<String>,
}

impl AlbumMeta {
    /// The headings of the further covers.
    pub open spec fn cover_headings(self) -> Seq<Seq<char>> {
        self.other_covers@.map_values(|c: (String, Illustration)| c.0@)
    }

    /// No two further covers share a heading.
    pub open spec fn wf(self) -> bool {
        all_distinct(self.cover_headings())
    }

    /// Whether no two further covers share a heading.
    pub fn has_distinct_cover_headings(&self) -> (r: bool)
        ensures
            r == self.wf(),
    {
        let mut refs: Vec<&str> = Vec::new();
        let mut i: usize = 0;
        while i < self.other_covers.len()
            invariant
                i <= self.other_covers@.len(),
                refs@.len() == i,
                str_views(refs@) == self.cover_headings().take(i as int),
            decreases self.other_covers@.len() - i,
        {
            let h = self.other_covers[i].0.as_str();
            let ghost prev = refs@;
            refs.push(h);
            assert(str_views(refs@) =~= self.cover_headings().take(i as int + 1)) by {
                assert(prev.map_values(|s: &str| s@) == self.cover_headings().take(i as int));
                assert forall|k: int| 0 <= k <= i implies #[trigger] str_views(refs@)[k]
                    == self.cover_headings().take(i as int + 1)[k] by {
                    if k < i {
                        assert(refs@[k] == prev[k]);
                        assert(prev.map_values(|s: &str| s@)[k] == self.cover_headings().take(i as int)[k]);
                    }
                }
            }
            i = i + 1;
        }
        assert(self.cover_headings().take(i as int) =~= self.cover_headings());
        distinct_strings(&refs)
    }

    /// Every contributor handle resolves in `names`.
    pub open spec fn contributors_resolve(self, names: Map<Seq<char>, Seq<char>>) -> bool {
        forall|i: int|
            0 <= i < self.contributors@.len() ==> names.contains_key(
                #[trigger] self.contributors@[i]@,
            )
    }

    /// The credit line: display names of the member contributors, then the
    /// extra contributors, each name once, separated by `, `.
    pub open spec fn credit_spec(self, names: Map<Seq<char>, Seq<char>>) -> Seq<char> {
        join(
            dedup(
                views(self.contributors@).map_values(|h: Seq<char>| names[h]) + views(
                    self.extra_contributors@,
                ),
            ),
            ", "@,
        )
    }

    /// The credit line as written, with handles in place of display names.
    pub open spec fn naive_credit_spec(self) -> Seq<char> {
        join(dedup(views(self.contributors@) + views(self.extra_contributors@)), ", "@)
    }

    /// The credit line of the album, with member handles resolved to
    /// display names.
    pub fn contributors_str(&self, names: &NameMap) -> (r: String)
        requires
            names.wf(),
            self.contributors_resolve(names@),
        ensures
            r@ == self.credit_spec(names@),
    {
        let ghost all = views(self.contributors@).map_values(|h: Seq<char>| names@[h]) + views(
            self.extra_contributors@,
        );
        let mut seen: Vec<String> = Vec::new();
        let mut i: usize = 0;
        while i < self.contributors.len()
            invariant
                names.wf(),
                self.contributors_resolve(names@),
                i <= self.contributors@.len(),
                views(seen@) == dedup(all.take(i as int)),
                all.len() == self.contributors@.len() + self.extra_contributors@.len(),
                forall|j: int|
                    0 <= j < self.contributors@.len() ==> #[trigger] all[j]
                        == names@[self.contributors@[j]@],
            decreases self.contributors@.len() - i,
        {
            let h = self.contributors[i].as_str();
            assert(names@.contains_key(self.contributors@[i as int]@));
            let n = names.get(h).unwrap().clone();
            assert(all.take(i as int + 1).drop_last() =~= all.take(i as int));
            push_unique(&mut seen, n);
            i = i + 1;
        }
        let n = self.contributors.len();
        let mut k: usize = 0;
        while k < self.extra_contributors.len()
            invariant
                n == self.contributors@.len(),
                k <= self.extra_contributors@.len(),
                views(seen@) == dedup(all.take(n + k)),
                all.len() == self.contributors@.len() + self.extra_contributors@.len(),
                forall|j: int|
                    0 <= j < self.extra_contributors@.len() ==> #[trigger] all[n + j]
                        == self.extra_contributors@[j]@,
            decreases self.extra_contributors@.len() - k,
        {
            assert(all.take(n + k + 1).drop_last() =~= all.take(n + k));
            push_unique(&mut seen, self.extra_contributors[k].clone());
            k = k + 1;
        }
        assert(all.take(n + k) =~= all);
        join_strings(&seen, ", ")
    }

    /// The credit line with member handles as written, unresolved.
    pub fn contributors_str_naive(&self) -> (r: String)
        ensures
            r@ == self.naive_credit_spec(),
    {
        let ghost all = views(self.contributors@) + views(self.extra_contributors@);
        let mut seen: Vec<String> = Vec::new();
        let mut i: usize = 0;
        while i < self.contributors.len()
            invariant
                i <= self.contributors@.len(),
                views(seen@) == dedup(all.take(i as int)),
                all.len() == self.contributors@.len() + self.extra_contributors@.len(),
                forall|j: int|
                    0 <= j < self.contributors@.len() ==> #[trigger] all[j]
                        == self.contributors@[j]@,
            decreases self.contributors@.len() - i,
        {
            assert(all.take(i as int + 1).drop_last() =~= all.take(i as int));
            push_unique(&mut seen, self.contributors[i].clone());
            i = i + 1;
        }
        let n = self.contributors.len();
        let mut k: usize = 0;
        while k < self.extra_contributors.len()
            invariant
                n == self.contributors@.len(),
                k <= self.extra_contributors@.len(),
                views(seen@) == dedup(all.take(n + k)),
                all.len() == self.contributors@.len() + self.extra_contributors@.len(),
                forall|j: int|
                    0 <= j < self.extra_contributors@.len() ==> #[trigger] all[n + j]
                        == self.extra_contributors@[j]@,
            decreases self.extra_contributors@.len() - k,
        {
            assert(all.take(n + k + 1).drop_last() =~= all.take(n + k));
            push_unique(&mut seen, self.extra_contributors[k].clone());
            k = k + 1;
        }
        assert(all.take(n + k) =~= all);
        join_strings(&seen, ", ")
    }
}

impl TracklistTrack {
    /// The track's length as `m:ss`; nothing when it is unknown or
    /// negative.
    pub fn duration_text(&self) -> (r: Option<String>)
        ensures
            match self.duration_seconds {
                Some(s) if s >= 0 => r matches Some(t) && t@ == duration_spec(s as nat),
                _ => r is None,
            },
    {
        match self.duration_seconds {
            Some(s) => if s >= 0 {
                Some(format_duration(s as u32))
            } else {
                None
            },
            None => None,
        }
    }
}

impl AlbumMeta {
    /// The credit line shortened for an album card: its first 18
    /// characters, then `...`.
    pub fn card_credit(&self, names: &NameMap) -> (r: String)
        requires
            names.wf(),
            self.contributors_resolve(names@),
        ensures
            r@ == prefix_chars(self.credit_spec(names@), 18) + "..."@,
    {
        let full = self.contributors_str(names);
        let n = full.as_str().unicode_len();
        let k: usize = if n < 18 { n } else { 18 };
        let mut r = String::from_str(full.as_str().substring_char(0, k));
        r.append("...");
        assert(n <= 18 ==> full@.subrange(0, k as int) =~= full@);
        assert(n > 18 ==> full@.subrange(0, k as int) =~= full@.take(18));
        r
    }
}

} // verus!
