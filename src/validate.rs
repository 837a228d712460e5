//! Reference validation: every member handle that a release, album or post
//! names must resolve in the name table before anything is rendered.

use vstd::prelude::*;

use crate::album::{AlbumMeta, TracklistTrack};
use crate::member::MemberMeta;
use crate::names::{has_handle, member_names, NameMap};
use crate::post::PostMeta;
use crate::text::views;
use crate::work::WorkMeta;

verus! {

/// A loaded content file: where it came from, its front matter as a record,
/// and its body text.
#[derive(Clone, Debug)]
pub struct SourceFile<M> {
    pub path: String,
    pub meta: M,
    pub text: String,
}

/// The front matter field that holds a reference.
#[derive(Clone, Copy, Debug, PartialEq, Eq, Structural)]
pub enum RefField {
    Author,
    Collaborators,
    Contributors,
    /// The `author` of a track that is not marked as by an outside author.
    TrackAuthor,
}

/// Why a build stops.
#[derive(Clone, Debug)]
pub enum BuildError {
    /// Two member records share this handle.
    DuplicateHandle { handle: String },
    /// The file at `path` names `value` in `field`, and no member has that
    /// handle.
    UnresolvedReference { path: String, field: RefField, value: String },
}

pub open spec fn work_resolves(t: Set<Seq<char>>, w: WorkMeta) -> bool {
    &&& t.contains(w.author@)
    &&& forall|i: int|
        0 <= i < w.collaborators@.len() ==> t.contains(#[trigger] w.collaborators@[i]@)
}

pub open spec fn album_resolves(t: Set<Seq<char>>, a: AlbumMeta) -> bool {
    &&& forall|i: int|
        0 <= i < a.contributors@.len() ==> t.contains(#[trigger] a.contributors@[i]@)
    &&& forall|i: int|
        0 <= i < a.tracklist@.len() && !(#[trigger] a.tracklist@[i]).external_author
            ==> t.contains(a.tracklist@[i].author@)
}

pub open spec fn post_resolves(t: Set<Seq<char>>, p: PostMeta) -> bool {
    t.contains(p.author@)
}

/// Every reference of every record resolves.
pub open spec fn all_resolve(
    t: Set<Seq<char>>,
    works: Seq<SourceFile<WorkMeta>>,
    albums: Seq<SourceFile<AlbumMeta>>,
    posts: Seq<SourceFile<PostMeta>>,
) -> bool {
    &&& forall|i: int| 0 <= i < works.len() ==> work_resolves(t, #[trigger] works[i].meta)
    &&& forall|i: int| 0 <= i < albums.len() ==> album_resolves(t, #[trigger] albums[i].meta)
    &&& forall|i: int| 0 <= i < posts.len() ==> post_resolves(t, #[trigger] posts[i].meta)
}

/// Release `w` names `v` in `field`.
pub open spec fn work_refers(w: WorkMeta, field: RefField, v: Seq<char>) -> bool {
    ||| field == RefField::Author && w.author@ == v
    ||| field == RefField::Collaborators && exists|i: int|
        0 <= i < w.collaborators@.len() && #[trigger] w.collaborators@[i]@ == v
}

/// Album `a` names `v` in `field`.
pub open spec fn album_refers(a: AlbumMeta, field: RefField, v: Seq<char>) -> bool {
    ||| field == RefField::Contributors && exists|i: int|
        0 <= i < a.contributors@.len() && #[trigger] a.contributors@[i]@ == v
    ||| field == RefField::TrackAuthor && exists|i: int|
        0 <= i < a.tracklist@.len() && !(#[trigger] a.tracklist@[i]).external_author
            && a.tracklist@[i].author@ == v
}

/// Post `p` names `v` in `field`.
pub open spec fn post_refers(p: PostMeta, field: RefField, v: Seq<char>) -> bool {
    field == RefField::Author && p.author@ == v
}

/// The file at `path` names `value` in `field`, and `value` does not
/// resolve.
pub open spec fn is_unresolved(
    t: Set<Seq<char>>,
    works: Seq<SourceFile<WorkMeta>>,
    albums: Seq<SourceFile<AlbumMeta>>,
    posts: Seq<SourceFile<PostMeta>>,
    path: Seq<char>,
    field: RefField,
    value: Seq<char>,
) -> bool {
    &&& !t.contains(value)
    &&& {
        ||| exists|i: int|
            0 <= i < works.len() && (#[trigger] works[i]).path@ == path && work_refers(
                works[i].meta,
                field,
                value,
            )
        ||| exists|i: int|
            0 <= i < albums.len() && (#[trigger] albums[i]).path@ == path && album_refers(
                albums[i].meta,
                field,
                value,
            )
        ||| exists|i: int|
            0 <= i < posts.len() && (#[trigger] posts[i]).path@ == path && post_refers(
                posts[i].meta,
                field,
                value,
            )
    }
}

/// The first of `s` that `t` does not hold.
pub open spec fn first_missing(t: Set<Seq<char>>, s: Seq<Seq<char>>) -> Option<Seq<char>>
    decreases s.len(),
{
    if s.len() == 0 {
        None
    } else if !t.contains(s[0]) {
        Some(s[0])
    } else {
        first_missing(t, s.drop_first())
    }
}

/// The author of the first member-authored track that `t` does not hold.
pub open spec fn first_missing_track(t: Set<Seq<char>>, s: Seq<TracklistTrack>) -> Option<
    Seq<char>,
>
    decreases s.len(),
{
    if s.len() == 0 {
        None
    } else if !s[0].external_author && !t.contains(s[0].author@) {
        Some(s[0].author@)
    } else {
        first_missing_track(t, s.drop_first())
    }
}

/// The first reference of a release that does not resolve: its author, then
/// its collaborators in order.
pub open spec fn first_work_failure(t: Set<Seq<char>>, w: WorkMeta) -> Option<(RefField, Seq<char>)> {
    if !t.contains(w.author@) {
        Some((RefField::Author, w.author@))
    } else {
        match first_missing(t, views(w.collaborators@)) {
            Some(v) => Some((RefField::Collaborators, v)),
            None => None,
        }
    }
}

/// The first reference of an album that does not resolve: its contributors,
/// then its member-authored tracks, in order.
pub open spec fn first_album_failure(t: Set<Seq<char>>, a: AlbumMeta) -> Option<(RefField, Seq<char>)> {
    match first_missing(t, views(a.contributors@)) {
        Some(v) => Some((RefField::Contributors, v)),
        None => match first_missing_track(t, a.tracklist@) {
            Some(v) => Some((RefField::TrackAuthor, v)),
            None => None,
        },
    }
}

/// The reference of a post that does not resolve, if its author does not.
pub open spec fn first_post_failure(t: Set<Seq<char>>, p: PostMeta) -> Option<(RefField, Seq<char>)> {
    if !t.contains(p.author@) {
        Some((RefField::Author, p.author@))
    } else {
        None
    }
}

/// The first unresolved reference among releases, with its file.
pub open spec fn first_work_file_failure(t: Set<Seq<char>>, fs: Seq<SourceFile<WorkMeta>>) -> Option<
    (Seq<char>, RefField, Seq<char>),
>
    decreases fs.len(),
{
    if fs.len() == 0 {
        None
    } else {
        match first_work_failure(t, fs[0].meta) {
            Some((f, v)) => Some((fs[0].path@, f, v)),
            None => first_work_file_failure(t, fs.drop_first()),
        }
    }
}

/// The first unresolved reference among albums, with its file.
pub open spec fn first_album_file_failure(t: Set<Seq<char>>, fs: Seq<SourceFile<AlbumMeta>>) -> Option<
    (Seq<char>, RefField, Seq<char>),
>
    decreases fs.len(),
{
    if fs.len() == 0 {
        None
    } else {
        match first_album_failure(t, fs[0].meta) {
            Some((f, v)) => Some((fs[0].path@, f, v)),
            None => first_album_file_failure(t, fs.drop_first()),
        }
    }
}

/// The first unresolved reference among posts, with its file.
pub open spec fn first_post_file_failure(t: Set<Seq<char>>, fs: Seq<SourceFile<PostMeta>>) -> Option<
    (Seq<char>, RefField, Seq<char>),
>
    decreases fs.len(),
{
    if fs.len() == 0 {
        None
    } else {
        match first_post_failure(t, fs[0].meta) {
            Some((f, v)) => Some((fs[0].path@, f, v)),
            None => first_post_file_failure(t, fs.drop_first()),
        }
    }
}

/// The reference that validation reports: the first that does not resolve,
/// taking releases, then albums, then posts, each in load order.
pub open spec fn first_failure(
    t: Set<Seq<char>>,
    works: Seq<SourceFile<WorkMeta>>,
    albums: Seq<SourceFile<AlbumMeta>>,
    posts: Seq<SourceFile<PostMeta>>,
) -> Option<(Seq<char>, RefField, Seq<char>)> {
    match first_work_file_failure(t, works) {
        Some(x) => Some(x),
        None => match first_album_file_failure(t, albums) {
            Some(x) => Some(x),
            None => first_post_file_failure(t, posts),
        },
    }
}

fn unresolved(path: &String, field: RefField, value: &String) -> (e: BuildError)
    ensures
        e matches BuildError::UnresolvedReference { path: p, field: f, value: v } && p@ == path@
            && f == field && v@ == value@,
{
    BuildError::UnresolvedReference { path: path.clone(), field, value: value.clone() }
}

/// Checks the author and the collaborators of one release.
fn check_work(t: &NameMap, f: &SourceFile<WorkMeta>) -> (r: Result<(), BuildError>)
    requires
        t.wf(),
    ensures
        r is Ok <==> work_resolves(t@.dom(), f.meta),
        r matches Err(e) ==> e matches BuildError::UnresolvedReference { path, field, value }
            && path@ == f.path@ && !t@.dom().contains(value@) && work_refers(f.meta, field, value@)
            && first_work_failure(t@.dom(), f.meta) == Some((field, value@)),
        r is Ok <==> first_work_failure(t@.dom(), f.meta) is None,
{
    if !t.contains_key(f.meta.author.as_str()) {
        return Err(unresolved(&f.path, RefField::Author, &f.meta.author));
    }
    let ghost cv = views(f.meta.collaborators@);
    assert(cv.skip(0) =~= cv);
    let mut i: usize = 0;
    while i < f.meta.collaborators.len()
        invariant
            t.wf(),
            i <= f.meta.collaborators@.len(),
            cv == views(f.meta.collaborators@),
            t@.dom().contains(f.meta.author@),
            forall|j: int| 0 <= j < i ==> t@.dom().contains(#[trigger] f.meta.collaborators@[j]@),
            first_missing(t@.dom(), cv) == first_missing(t@.dom(), cv.skip(i as int)),
        decreases f.meta.collaborators@.len() - i,
    {
        let c = &f.meta.collaborators[i];
        assert(cv.skip(i as int)[0] == c@);
        if !t.contains_key(c.as_str()) {
            assert(f.meta.collaborators@[i as int]@ == c@);
            assert(first_missing(t@.dom(), cv.skip(i as int)) == Some(c@));
            assert(t@.dom().contains(f.meta.author@));
            return Err(unresolved(&f.path, RefField::Collaborators, c));
        }
        assert(cv.skip(i as int).drop_first() =~= cv.skip(i as int + 1));
        i = i + 1;
    }
    Ok(())
}

/// Checks the contributors and the member-authored tracks of one album.
fn check_album(t: &NameMap, f: &SourceFile<AlbumMeta>) -> (r: Result<(), BuildError>)
    requires
        t.wf(),
    ensures
        r is Ok <==> album_resolves(t@.dom(), f.meta),
        r matches Err(e) ==> e matches BuildError::UnresolvedReference { path, field, value }
            && path@ == f.path@ && !t@.dom().contains(value@) && album_refers(f.meta, field, value@)
            && first_album_failure(t@.dom(), f.meta) == Some((field, value@)),
        r is Ok <==> first_album_failure(t@.dom(), f.meta) is None,
{
    let ghost cv = views(f.meta.contributors@);
    assert(cv.skip(0) =~= cv);
    let mut i: usize = 0;
    while i < f.meta.contributors.len()
        invariant
            t.wf(),
            i <= f.meta.contributors@.len(),
            cv == views(f.meta.contributors@),
            forall|j: int| 0 <= j < i ==> t@.dom().contains(#[trigger] f.meta.contributors@[j]@),
            first_missing(t@.dom(), cv) == first_missing(t@.dom(), cv.skip(i as int)),
        decreases f.meta.contributors@.len() - i,
    {
        let c = &f.meta.contributors[i];
        assert(cv.skip(i as int)[0] == c@);
        if !t.contains_key(c.as_str()) {
            assert(f.meta.contributors@[i as int]@ == c@);
            return Err(unresolved(&f.path, RefField::Contributors, c));
        }
        assert(cv.skip(i as int).drop_first() =~= cv.skip(i as int + 1));
        i = i + 1;
    }
    let ghost tv = f.meta.tracklist@;
    assert(tv.skip(0) =~= tv);
    let mut k: usize = 0;
    while k < f.meta.tracklist.len()
        invariant
            t.wf(),
            k <= f.meta.tracklist@.len(),
            tv == f.meta.tracklist@,
            first_missing(t@.dom(), views(f.meta.contributors@)) is None,
            forall|j: int| 0 <= j < f.meta.contributors@.len() ==> t@.dom().contains(#[trigger] f.meta.contributors@[j]@),
            forall|j: int|
                0 <= j < k && !(#[trigger] f.meta.tracklist@[j]).external_author
                    ==> t@.dom().contains(f.meta.tracklist@[j].author@),
            first_missing_track(t@.dom(), tv) == first_missing_track(t@.dom(), tv.skip(k as int)),
        decreases f.meta.tracklist@.len() - k,
    {
        let track = &f.meta.tracklist[k];
        assert(tv.skip(k as int)[0] == *track);
        if !track.external_author && !t.contains_key(track.author.as_str()) {
            assert(f.meta.tracklist@[k as int] == *track);
            return Err(unresolved(&f.path, RefField::TrackAuthor, &track.author));
        }
        assert(tv.skip(k as int).drop_first() =~= tv.skip(k as int + 1));
        k = k + 1;
    }
    Ok(())
}

/// Checks the author of one post.
fn check_post(t: &NameMap, f: &SourceFile<PostMeta>) -> (r: Result<(), BuildError>)
    requires
        t.wf(),
    ensures
        r is Ok <==> post_resolves(t@.dom(), f.meta),
        r matches Err(e) ==> e matches BuildError::UnresolvedReference { path, field, value }
            && path@ == f.path@ && !t@.dom().contains(value@) && post_refers(f.meta, field, value@)
            && first_post_failure(t@.dom(), f.meta) == Some((field, value@)),
        r is Ok <==> first_post_failure(t@.dom(), f.meta) is None,
{
    if !t.contains_key(f.meta.author.as_str()) {
        return Err(unresolved(&f.path, RefField::Author, &f.meta.author));
    }
    Ok(())
}

/// Checks every reference of every release, album and post against the name
/// table, in that order, and stops at the first that does not resolve.
pub fn validate(
    table: &NameMap,
    works: &Vec<SourceFile<WorkMeta>>,
    albums: &Vec<SourceFile<AlbumMeta>>,
    posts: &Vec<SourceFile<PostMeta>>,
) -> (r: Result<(), BuildError>)
    requires
        table.wf(),
    ensures
        r is Ok <==> all_resolve(table@.dom(), works@, albums@, posts@),
        r matches Err(e) ==> e matches BuildError::UnresolvedReference { path, field, value }
            && is_unresolved(table@.dom(), works@, albums@, posts@, path@, field, value@)
            && first_failure(table@.dom(), works@, albums@, posts@) == Some((path@, field, value@)),
        r is Ok <==> first_failure(table@.dom(), works@, albums@, posts@) is None,
{
    let ghost t = table@.dom();
    assert(works@.skip(0) =~= works@);
    assert(albums@.skip(0) =~= albums@);
    assert(posts@.skip(0) =~= posts@);
    let mut i: usize = 0;
    while i < works.len()
        invariant
            table.wf(),
            i <= works@.len(),
            forall|j: int| 0 <= j < i ==> work_resolves(table@.dom(), #[trigger] works@[j].meta),
            t == table@.dom(),
            first_work_file_failure(t, works@) == first_work_file_failure(t, works@.skip(i as int)),
        decreases works@.len() - i,
    {
        let r = check_work(table, &works[i]);
        assert(works@.skip(i as int)[0] == works@[i as int]);
        assert(works@.skip(i as int).drop_first() =~= works@.skip(i as int + 1));
        if r.is_err() {
            assert(!all_resolve(table@.dom(), works@, albums@, posts@));
            return r;
        }
        i = i + 1;
    }
    let mut i: usize = 0;
    while i < albums.len()
        invariant
            table.wf(),
            i <= albums@.len(),
            forall|j: int| 0 <= j < works@.len() ==> work_resolves(table@.dom(), #[trigger] works@[j].meta),
            forall|j: int| 0 <= j < i ==> album_resolves(table@.dom(), #[trigger] albums@[j].meta),
            t == table@.dom(),
            first_work_file_failure(t, works@) is None,
            first_album_file_failure(t, albums@) == first_album_file_failure(t, albums@.skip(i as int)),
        decreases albums@.len() - i,
    {
        let r = check_album(table, &albums[i]);
        assert(albums@.skip(i as int)[0] == albums@[i as int]);
        assert(albums@.skip(i as int).drop_first() =~= albums@.skip(i as int + 1));
        if r.is_err() {
            assert(!all_resolve(table@.dom(), works@, albums@, posts@));
            return r;
        }
        i = i + 1;
    }
    let mut i: usize = 0;
    while i < posts.len()
        invariant
            table.wf(),
            i <= posts@.len(),
            forall|j: int| 0 <= j < works@.len() ==> work_resolves(table@.dom(), #[trigger] works@[j].meta),
            forall|j: int| 0 <= j < albums@.len() ==> album_resolves(table@.dom(), #[trigger] albums@[j].meta),
            forall|j: int| 0 <= j < i ==> post_resolves(table@.dom(), #[trigger] posts@[j].meta),
            t == table@.dom(),
            first_work_file_failure(t, works@) is None,
            first_album_file_failure(t, albums@) is None,
            first_post_file_failure(t, posts@) == first_post_file_failure(t, posts@.skip(i as int)),
        decreases posts@.len() - i,
    {
        let r = check_post(table, &posts[i]);
        assert(posts@.skip(i as int)[0] == posts@[i as int]);
        assert(posts@.skip(i as int).drop_first() =~= posts@.skip(i as int + 1));
        if r.is_err() {
            assert(!all_resolve(table@.dom(), works@, albums@, posts@));
            return r;
        }
        i = i + 1;
    }
    Ok(())
}

/// The handles of `members`.
pub open spec fn handle_set(members: Seq<MemberMeta>) -> Set<Seq<char>> {
    Set::new(|h: Seq<char>| has_handle(members, h))
}

/// The table built from `members` accepts every set of records whose
/// references all name one of those members.
pub proof fn lemma_known_handles_pass(
    members: Seq<MemberMeta>,
    works: Seq<SourceFile<WorkMeta>>,
    albums: Seq<SourceFile<AlbumMeta>>,
    posts: Seq<SourceFile<PostMeta>>,
)
    requires
        all_resolve(handle_set(members), works, albums, posts),
    ensures
        all_resolve(member_names(members).dom(), works, albums, posts),
{
    assert(member_names(members).dom() =~= handle_set(members));
}

/// The records fail validation exactly when some file names, in some field,
/// a value that the table does not hold; the failure that validation
/// reports is such a file, field and value.
pub proof fn lemma_unknown_handle_fails(
    t: Set<Seq<char>>,
    works: Seq<SourceFile<WorkMeta>>,
    albums: Seq<SourceFile<AlbumMeta>>,
    posts: Seq<SourceFile<PostMeta>>,
)
    ensures
        !all_resolve(t, works, albums, posts) <==> exists|
            path: Seq<char>,
            field: RefField,
            value: Seq<char>,
        | is_unresolved(t, works, albums, posts, path, field, value),
{
    if !all_resolve(t, works, albums, posts) {
        if exists|i: int| 0 <= i < works.len() && !work_resolves(t, #[trigger] works[i].meta) {
            let i = choose|i: int| 0 <= i < works.len() && !work_resolves(t, #[trigger] works[i].meta);
            let w = works[i].meta;
            if !t.contains(w.author@) {
                assert(is_unresolved(t, works, albums, posts, works[i].path@, RefField::Author, w.author@));
            } else {
                let j = choose|j: int| 0 <= j < w.collaborators@.len() && !t.contains(#[trigger] w.collaborators@[j]@);
                assert(is_unresolved(t, works, albums, posts, works[i].path@, RefField::Collaborators, w.collaborators@[j]@));
            }
        } else if exists|i: int| 0 <= i < albums.len() && !album_resolves(t, #[trigger] albums[i].meta) {
            let i = choose|i: int| 0 <= i < albums.len() && !album_resolves(t, #[trigger] albums[i].meta);
            let a = albums[i].meta;
            if exists|j: int| 0 <= j < a.contributors@.len() && !t.contains(#[trigger] a.contributors@[j]@) {
                let j = choose|j: int| 0 <= j < a.contributors@.len() && !t.contains(#[trigger] a.contributors@[j]@);
                assert(is_unresolved(t, works, albums, posts, albums[i].path@, RefField::Contributors, a.contributors@[j]@));
            } else {
                let j = choose|j: int| 0 <= j < a.tracklist@.len() && !(#[trigger] a.tracklist@[j]).external_author
                    && !t.contains(a.tracklist@[j].author@);
                assert(is_unresolved(t, works, albums, posts, albums[i].path@, RefField::TrackAuthor, a.tracklist@[j].author@));
            }
        } else {
            let i = choose|i: int| 0 <= i < posts.len() && !post_resolves(t, #[trigger] posts[i].meta);
            assert(is_unresolved(t, works, albums, posts, posts[i].path@, RefField::Author, posts[i].meta.author@));
        }
    }
    if exists|path: Seq<char>, field: RefField, value: Seq<char>|
        is_unresolved(t, works, albums, posts, path, field, value) {
        let (path, field, value) = choose|path: Seq<char>, field: RefField, value: Seq<char>|
            is_unresolved(t, works, albums, posts, path, field, value);
        if exists|i: int| 0 <= i < works.len() && (#[trigger] works[i]).path@ == path && work_refers(works[i].meta, field, value) {
            let i = choose|i: int| 0 <= i < works.len() && (#[trigger] works[i]).path@ == path && work_refers(works[i].meta, field, value);
            assert(!work_resolves(t, works[i].meta));
        } else if exists|i: int| 0 <= i < albums.len() && (#[trigger] albums[i]).path@ == path && album_refers(albums[i].meta, field, value) {
            let i = choose|i: int| 0 <= i < albums.len() && (#[trigger] albums[i]).path@ == path && album_refers(albums[i].meta, field, value);
            assert(!album_resolves(t, albums[i].meta));
        } else {
            let i = choose|i: int| 0 <= i < posts.len() && (#[trigger] posts[i]).path@ == path && post_refers(posts[i].meta, field, value);
            assert(!post_resolves(t, posts[i].meta));
        }
    }
}

} // verus!
