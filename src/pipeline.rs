//! The checks that run before any page is rendered, and the per-release
//! entries of the machine-readable works list.

use vstd::prelude::*;

use crate::album::AlbumMeta;
use crate::config::{guarded, lnk, SiteConfig};
use crate::member::MemberMeta;
use crate::names::{member_names, unique_handles, NameMap, NameMapError};
use crate::post::PostMeta;
use crate::slug::{slug_spec, work_reference};
use crate::validate::{
    all_resolve, first_failure, handle_set, is_unresolved, validate, BuildError, RefField,
    SourceFile,
};
use crate::text::clone_opt;
use crate::work::WorkMeta;

verus! {

/// What every page of a build may read: the name table.
#[derive(Clone, Debug)]
pub struct BuildData {
    pub name_map: NameMap,
}

/// Facts about the build as a whole.
#[derive(Clone, Debug)]
pub struct SiteData {
    pub build_id: u64,
    pub site_url: String,
}

/// Builds the name table from all members and checks every reference of
/// every release, album and post against it. The build goes on only when
/// this succeeds.
pub fn check_content(
    members: &Vec<MemberMeta>,
    works: &Vec<SourceFile<WorkMeta>>,
    albums: &Vec<SourceFile<AlbumMeta>>,
    posts: &Vec<SourceFile<PostMeta>>,
) -> (r: Result<BuildData, BuildError>)
    ensures
        r is Ok <==> unique_handles(members@) && all_resolve(
            handle_set(members@),
            works@,
            albums@,
            posts@,
        ),
        r is Ok <==> unique_handles(members@) && first_failure(
            handle_set(members@),
            works@,
            albums@,
            posts@,
        ) is None,
        r matches Ok(d) ==> d.name_map.wf() && d.name_map@ == member_names(members@),
        r matches Err(BuildError::DuplicateHandle { handle }) ==> exists|i: int, j: int|
            0 <= i < j < members@.len() && members@[i].ascii_name@ == handle@
                && members@[j].ascii_name@ == handle@,
        r matches Err(BuildError::UnresolvedReference { path, field, value }) ==> unique_handles(
            members@,
        ) && is_unresolved(handle_set(members@), works@, albums@, posts@, path@, field, value@)
            && first_failure(handle_set(members@), works@, albums@, posts@) == Some(
            (path@, field, value@),
        ),
{
    let name_map = match NameMap::build(members) {
        Ok(t) => t,
        Err(NameMapError::DuplicateHandle(handle)) => {
            return Err(BuildError::DuplicateHandle { handle });
        },
    };
    assert(name_map@.dom() =~= handle_set(members@));
    match validate(&name_map, works, albums, posts) {
        Ok(()) => Ok(BuildData { name_map }),
        Err(e) => Err(e),
    }
}

impl RefField {
    pub open spec fn name_spec(self) -> Seq<char> {
        match self {
            RefField::Author => "author"@,
            RefField::Collaborators => "collaborators"@,
            RefField::Contributors => "contributors"@,
            RefField::TrackAuthor => "tracklist.author"@,
        }
    }

    /// The field's name as front matter writes it.
    pub fn name(&self) -> (r: &str)
        ensures
            r@ == self.name_spec(),
    {
        match self {
            RefField::Author => "author",
            RefField::Collaborators => "collaborators",
            RefField::Contributors => "contributors",
            RefField::TrackAuthor => "tracklist.author",
        }
    }
}

/// The advice that closes an unresolved-reference message.
pub open spec fn hint_spec() -> Seq<char> {
    " is not the handle of any member; check its spelling and capitalisation, or list a non-member under the field's `extra_` counterpart"@
}

impl BuildError {
    pub open spec fn message_spec(self) -> Seq<char> {
        match self {
            BuildError::DuplicateHandle { handle } => "two member files share the handle "@
                + handle@,
            BuildError::UnresolvedReference { path, field, value } => "file "@ + path@
                + ", field `"@ + field.name_spec() + "`: "@ + value@ + hint_spec(),
        }
    }

    /// A message for the person who wrote the content: it names the file,
    /// the field and the value at fault.
    pub fn message(&self) -> (r: String)
        ensures
            r@ == self.message_spec(),
    {
        match self {
            BuildError::DuplicateHandle { handle } => {
                let mut r = String::from_str("two member files share the handle ");
                r.append(handle.as_str());
                r
            },
            BuildError::UnresolvedReference { path, field, value } => {
                let mut r = String::from_str("file ");
                r.append(path.as_str());
                r.append(", field `");
                r.append(field.name());
                r.append("`: ");
                r.append(value.as_str());
                r.append(
                    " is not the handle of any member; check its spelling and capitalisation, or list a non-member under the field's `extra_` counterpart",
                );
                r
            },
        }
    }
}

/// One entry of the works list that the site's random-release picker reads.
#[derive(Clone, Debug)]
pub struct DisplayWorkMeta {
    pub id: i32,
    pub title: String,
    pub description: Option<String>,
    pub on_site_link: String,
    pub author_displayname: String,
    /// Display names of the collaborators.
    pub collaborators: Vec<String>,
    pub remix_original_work: Option<String>,
    pub author_link: String,
    pub embed_html: String,
}

impl DisplayWorkMeta {
    /// The works-list entry of release `work`, numbered `id`, with the
    /// rendered embed `embed_html`; `None` when one of its handles does not
    /// resolve.
    pub fn from_work(
        id: i32,
        work: &WorkMeta,
        names: &NameMap,
        config: &SiteConfig,
        embed_html: String,
    ) -> (r: Option<DisplayWorkMeta>)
        requires
            names.wf(),
        ensures
            r is Some <==> names@.contains_key(work.author@) && forall|i: int|
                0 <= i < work.collaborators@.len() ==> names@.contains_key(
                    #[trigger] work.collaborators@[i]@,
                ),
            r matches Some(d) ==> {
                &&& d.id == id
                &&& d.title == work.title
                &&& d.description == work.short
                &&& d.on_site_link@ == guarded(
                    config.site_url@,
                    "/works/releases/"@ + slug_spec(work.author@, work.title@) + ".html"@,
                )
                &&& d.author_displayname@ == names@[work.author@]
                &&& d.collaborators@.len() == work.collaborators@.len()
                &&& forall|i: int|
                    0 <= i < work.collaborators@.len() ==> #[trigger] d.collaborators@[i]@
                        == names@[work.collaborators@[i]@]
                &&& d.remix_original_work == work.remix_original_work
                &&& d.author_link@ == guarded(
                    config.site_url@,
                    "/members/"@ + work.author@ + ".html"@,
                )
                &&& d.embed_html == embed_html
            },
    {
        let author_displayname = match names.get(work.author.as_str()) {
            Some(n) => n.clone(),
            None => {
                return None;
            },
        };
        let mut collaborators: Vec<String> = Vec::new();
        let mut i: usize = 0;
        while i < work.collaborators.len()
            invariant
                names.wf(),
                i <= work.collaborators@.len(),
                collaborators@.len() == i,
                forall|j: int|
                    0 <= j < i ==> names@.contains_key(#[trigger] work.collaborators@[j]@),
                forall|j: int|
                    0 <= j < i ==> #[trigger] collaborators@[j]@ == names@[work.collaborators@[j]@],
            decreases work.collaborators@.len() - i,
        {
            match names.get(work.collaborators[i].as_str()) {
                Some(n) => collaborators.push(n.clone()),
                None => {
                    return None;
                },
            }
            i = i + 1;
        }
        let mut page = String::from_str("/works/releases/");
        page.append(work_reference(work.title.as_str(), work.author.as_str()).as_str());
        page.append(".html");
        let mut member_page = String::from_str("/members/");
        member_page.append(work.author.as_str());
        member_page.append(".html");
        Some(DisplayWorkMeta {
            id,
            title: work.title.clone(),
            description: clone_opt(&work.short),
            on_site_link: lnk(config, page.as_str()),
            author_displayname,
            collaborators,
            remix_original_work: clone_opt(&work.remix_original_work),
            author_link: lnk(config, member_page.as_str()),
            embed_html,
        })
    }
}

} // verus!
