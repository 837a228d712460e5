//! The site index: every validated collection, sorted for display, with
//! the filtered views that pages list.

use vstd::prelude::*;
use vstd::multiset::Multiset;

use crate::album::AlbumMeta;
use crate::member::MemberMeta;
use crate::post::PostMeta;
use crate::text::{lemma_lex_irreflexive, lemma_lex_transitive, lex_lt, str_eq, str_lt};
use crate::work::WorkMeta;

verus! {

/// The order in which records of a kind are listed.
pub trait ListOrder: Sized {
    /// `a` is listed strictly before `b`.
    spec fn goes_before(a: Self, b: Self) -> bool;

    proof fn lemma_strict_order(a: Self, b: Self, c: Self)
        ensures
            !Self::goes_before(a, a),
            Self::goes_before(a, b) && Self::goes_before(b, c) ==> Self::goes_before(a, c),
    ;

    fn before(&self, other: &Self) -> (r: bool)
        ensures
            r == Self::goes_before(*self, *other),
    ;
}

/// No record of `s` is listed before one that precedes it.
pub open spec fn is_listed<T: ListOrder>(s: Seq<T>) -> bool {
    forall|i: int, j: int| 0 <= i < j < s.len() ==> !T::goes_before(s[j], s[i])
}

/// Members: by role tier, then by display name.
pub open spec fn member_goes_before(a: MemberMeta, b: MemberMeta) -> bool {
    ||| a.tier_spec().rank_spec() < b.tier_spec().rank_spec()
    ||| a.tier_spec().rank_spec() == b.tier_spec().rank_spec() && lex_lt(a.name@, b.name@)
}

impl ListOrder for MemberMeta {
    open spec fn goes_before(a: Self, b: Self) -> bool {
        member_goes_before(a, b)
    }

    proof fn lemma_strict_order(a: Self, b: Self, c: Self) {
        lemma_lex_irreflexive(a.name@);
        if member_goes_before(a, b) && member_goes_before(b, c) && lex_lt(a.name@, b.name@)
            && lex_lt(b.name@, c.name@) {
            lemma_lex_transitive(a.name@, b.name@, c.name@);
        }
    }

    fn before(&self, other: &Self) -> (r: bool) {
        let a = self.role_tier().rank();
        let b = other.role_tier().rank();
        if a != b {
            a < b
        } else {
            str_lt(self.name.as_str(), other.name.as_str())
        }
    }
}

impl ListOrder for WorkMeta {
    open spec fn goes_before(a: Self, b: Self) -> bool {
        a.date.key_spec() > b.date.key_spec()
    }

    proof fn lemma_strict_order(a: Self, b: Self, c: Self) {
    }

    fn before(&self, other: &Self) -> (r: bool) {
        self.date.key() > other.date.key()
    }
}

impl ListOrder for PostMeta {
    open spec fn goes_before(a: Self, b: Self) -> bool {
        a.date.key_spec() > b.date.key_spec()
    }

    proof fn lemma_strict_order(a: Self, b: Self, c: Self) {
    }

    fn before(&self, other: &Self) -> (r: bool) {
        self.date.key() > other.date.key()
    }
}

impl ListOrder for AlbumMeta {
    open spec fn goes_before(a: Self, b: Self) -> bool {
        a.release_date.key_spec() > b.release_date.key_spec()
    }

    proof fn lemma_strict_order(a: Self, b: Self, c: Self) {
    }

    fn before(&self, other: &Self) -> (r: bool) {
        self.release_date.key() > other.release_date.key()
    }
}

proof fn lemma_insert_multiset<T>(s: Seq<T>, i: int, x: T)
    requires
        0 <= i <= s.len(),
    ensures
        s.insert(i, x).to_multiset() =~= s.to_multiset().insert(x),
{
    broadcast use vstd::seq_lib::group_to_multiset_ensures;

    let t = s.insert(i, x);
    assert(t.remove(i) =~= s);
    assert(t[i] == x);
    assert(t.contains(x));
}

/// Sorts `v` into list order, keeping every record.
pub fn sort_listed<T: ListOrder>(v: &mut Vec<T>)
    ensures
        final(v)@.to_multiset() == old(v)@.to_multiset(),
        is_listed(final(v)@),
{
    broadcast use vstd::seq_lib::group_to_multiset_ensures;

    let ghost orig = v@.to_multiset();
    let mut out: Vec<T> = Vec::new();
    while v.len() > 0
        invariant
            out@.to_multiset().add(v@.to_multiset()) == orig,
            is_listed(out@),
        decreases v@.len(),
    {
        let ghost before_v = v@;
        let x = v.remove(0);
        proof {
            assert(before_v[0] == x);
            assert(before_v.remove(0) =~= v@);
            assert(before_v.contains(x));
            before_v.to_multiset_ensures();
            v@.to_multiset_ensures();
            assert(before_v.to_multiset().count(x) > 0);
            assert(before_v.to_multiset() =~= v@.to_multiset().insert(x));
        }
        let mut pos: usize = 0;
        while pos < out.len() && !x.before(&out[pos])
            invariant
                pos <= out@.len(),
                forall|j: int| 0 <= j < pos ==> !T::goes_before(x, #[trigger] out@[j]),
            decreases out@.len() - pos,
        {
            pos = pos + 1;
        }
        let ghost old_out = out@;
        out.insert(pos, x);
        proof {
            lemma_insert_multiset(old_out, pos as int, x);
            assert(out@.to_multiset().add(v@.to_multiset()) =~= old_out.to_multiset().add(
                before_v.to_multiset(),
            ));
            assert forall|p: int, q: int| 0 <= p < q < out@.len() implies !T::goes_before(
                out@[q],
                out@[p],
            ) by {
                if q < pos {
                } else if q == pos {
                } else if p > pos {
                    assert(out@[p] == old_out[p - 1] && out@[q] == old_out[q - 1]);
                } else if p == pos {
                    let y = old_out[q - 1];
                    assert(out@[q] == y);
                    T::lemma_strict_order(y, x, old_out[pos as int]);
                    T::lemma_strict_order(old_out[pos as int], x, y);
                    if q - 1 > pos {
                        assert(!T::goes_before(old_out[q - 1], old_out[pos as int]));
                    }
                } else {
                    assert(out@[p] == old_out[p]);
                    assert(out@[q] == old_out[q - 1]);
                }
            }
        }
    }
    assert(v@.to_multiset() =~= Multiset::empty());
    assert(out@.to_multiset() =~= orig);
    *v = out;
}

/// All validated records of the site, each collection in list order.
#[derive(Clone, Debug)]
pub struct SiteMap {
    pub members: Vec<MemberMeta>,
    pub posts: Vec<PostMeta>,
    pub works: Vec<WorkMeta>,
    pub albums: Vec<AlbumMeta>,
}

impl SiteMap {
    /// Every collection is in list order.
    pub open spec fn is_sorted(&self) -> bool {
        &&& is_listed(self.members@)
        &&& is_listed(self.posts@)
        &&& is_listed(self.works@)
        &&& is_listed(self.albums@)
    }

    /// Gathers the collections and puts each in list order.
    pub fn assemble(
        members: Vec<MemberMeta>,
        posts: Vec<PostMeta>,
        works: Vec<WorkMeta>,
        albums: Vec<AlbumMeta>,
    ) -> (r: SiteMap)
        ensures
            r.members@.to_multiset() == members@.to_multiset(),
            r.posts@.to_multiset() == posts@.to_multiset(),
            r.works@.to_multiset() == works@.to_multiset(),
            r.albums@.to_multiset() == albums@.to_multiset(),
            r.is_sorted(),
    {
        let mut r = SiteMap { members, posts, works, albums };
        r.sort_self();
        r
    }

    /// Puts members in role-tier and name order, and posts, releases and
    /// albums newest first; each collection keeps its records.
    pub fn sort_self(&mut self)
        ensures
            final(self).members@.to_multiset() == old(self).members@.to_multiset(),
            final(self).posts@.to_multiset() == old(self).posts@.to_multiset(),
            final(self).works@.to_multiset() == old(self).works@.to_multiset(),
            final(self).albums@.to_multiset() == old(self).albums@.to_multiset(),
            final(self).is_sorted(),
    {
        sort_listed(&mut self.members);
        sort_listed(&mut self.posts);
        sort_listed(&mut self.works);
        sort_listed(&mut self.albums);
    }

    /// Posts of the club itself, in list order.
    pub fn official_posts(&self) -> (r: Vec<&PostMeta>)
        ensures
            r@.map_values(|p: &PostMeta| *p) == self.posts@.filter(|p: PostMeta| p.official),
    {
        let mut r: Vec<&PostMeta> = Vec::new();
        let mut i: usize = 0;
        while i < self.posts.len()
            invariant
                i <= self.posts@.len(),
                r@.map_values(|p: &PostMeta| *p) == self.posts@.take(i as int).filter(|p: PostMeta| p.official),
            decreases self.posts@.len() - i,
        {
            proof {
                reveal_with_fuel(Seq::filter, 1);
                assert(self.posts@.take(i as int + 1).drop_last() =~= self.posts@.take(i as int));
            }
            if self.posts[i].official {
                let ghost prev = r@;
                r.push(&self.posts[i]);
                assert(r@.map_values(|p: &PostMeta| *p) =~= prev.map_values(|p: &PostMeta| *p).push(self.posts@[i as int]));
            }
            i = i + 1;
        }
        assert(self.posts@.take(i as int) =~= self.posts@);
        r
    }

    /// Posts of single members, in list order.
    pub fn member_posts(&self) -> (r: Vec<&PostMeta>)
        ensures
            r@.map_values(|p: &PostMeta| *p) == self.posts@.filter(|p: PostMeta| !p.official),
    {
        let mut r: Vec<&PostMeta> = Vec::new();
        let mut i: usize = 0;
        while i < self.posts.len()
            invariant
                i <= self.posts@.len(),
                r@.map_values(|p: &PostMeta| *p) == self.posts@.take(i as int).filter(|p: PostMeta| !p.official),
            decreases self.posts@.len() - i,
        {
            proof {
                reveal_with_fuel(Seq::filter, 1);
                assert(self.posts@.take(i as int + 1).drop_last() =~= self.posts@.take(i as int));
            }
            if !self.posts[i].official {
                let ghost prev = r@;
                r.push(&self.posts[i]);
                assert(r@.map_values(|p: &PostMeta| *p) =~= prev.map_values(|p: &PostMeta| *p).push(self.posts@[i as int]));
            }
            i = i + 1;
        }
        assert(self.posts@.take(i as int) =~= self.posts@);
        r
    }

    /// Releases marked as featured, in list order.
    pub fn featured_works(&self) -> (r: Vec<&WorkMeta>)
        ensures
            r@.map_values(|w: &WorkMeta| *w) == self.works@.filter(|w: WorkMeta| w.featured),
    {
        let mut r: Vec<&WorkMeta> = Vec::new();
        let mut i: usize = 0;
        while i < self.works.len()
            invariant
                i <= self.works@.len(),
                r@.map_values(|w: &WorkMeta| *w) == self.works@.take(i as int).filter(|w: WorkMeta| w.featured),
            decreases self.works@.len() - i,
        {
            proof {
                reveal_with_fuel(Seq::filter, 1);
                assert(self.works@.take(i as int + 1).drop_last() =~= self.works@.take(i as int));
            }
            if self.works[i].featured {
                let ghost prev = r@;
                r.push(&self.works[i]);
                assert(r@.map_values(|w: &WorkMeta| *w) =~= prev.map_values(|w: &WorkMeta| *w).push(self.works@[i as int]));
            }
            i = i + 1;
        }
        assert(self.works@.take(i as int) =~= self.works@);
        r
    }

    /// The featured releases whose author is `handle`, for that member's
    /// page.
    pub fn featured_works_of(&self, handle: &str) -> (r: Vec<&WorkMeta>)
        ensures
            r@.map_values(|w: &WorkMeta| *w) == self.works@.filter(|w: WorkMeta| w.featured && w.author@ == handle@),
    {
        let mut r: Vec<&WorkMeta> = Vec::new();
        let mut i: usize = 0;
        while i < self.works.len()
            invariant
                i <= self.works@.len(),
                r@.map_values(|w: &WorkMeta| *w) == self.works@.take(i as int).filter(
                    |w: WorkMeta| w.featured && w.author@ == handle@,
                ),
            decreases self.works@.len() - i,
        {
            proof {
                reveal_with_fuel(Seq::filter, 1);
                assert(self.works@.take(i as int + 1).drop_last() =~= self.works@.take(i as int));
            }
            if self.works[i].featured && str_eq(self.works[i].author.as_str(), handle) {
                let ghost prev = r@;
                r.push(&self.works[i]);
                assert(r@.map_values(|w: &WorkMeta| *w) =~= prev.map_values(|w: &WorkMeta| *w).push(self.works@[i as int]));
            }
            i = i + 1;
        }
        assert(self.works@.take(i as int) =~= self.works@);
        r
    }

    /// The posts whose author is `handle`, for that member's page.
    pub fn posts_of(&self, handle: &str) -> (r: Vec<&PostMeta>)
        ensures
            r@.map_values(|p: &PostMeta| *p) == self.posts@.filter(|p: PostMeta| p.author@ == handle@),
    {
        let mut r: Vec<&PostMeta> = Vec::new();
        let mut i: usize = 0;
        while i < self.posts.len()
            invariant
                i <= self.posts@.len(),
                r@.map_values(|p: &PostMeta| *p) == self.posts@.take(i as int).filter(|p: PostMeta| p.author@ == handle@),
            decreases self.posts@.len() - i,
        {
            proof {
                reveal_with_fuel(Seq::filter, 1);
                assert(self.posts@.take(i as int + 1).drop_last() =~= self.posts@.take(i as int));
            }
            if str_eq(self.posts[i].author.as_str(), handle) {
                let ghost prev = r@;
                r.push(&self.posts[i]);
                assert(r@.map_values(|p: &PostMeta| *p) =~= prev.map_values(|p: &PostMeta| *p).push(self.posts@[i as int]));
            }
            i = i + 1;
        }
        assert(self.posts@.take(i as int) =~= self.posts@);
        r
    }
}

} // verus!
