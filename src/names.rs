//! The name resolution table: member handle to display name.

use vstd::prelude::*;

use crate::member::MemberMeta;
use crate::text::str_eq;

verus! {

/// No two members share a handle.
pub open spec fn unique_handles(members: Seq<MemberMeta>) -> bool {
    forall|i: int, j: int|
        0 <= i < j < members.len() ==> members[i].ascii_name@ != members[j].ascii_name@
}

/// Some member has handle `h`.
pub open spec fn has_handle(members: Seq<MemberMeta>, h: Seq<char>) -> bool {
    exists|i: int| 0 <= i < members.len() && members[i].ascii_name@ == h
}

/// The mapping from each member's handle to that member's display name.
pub open spec fn member_names(members: Seq<MemberMeta>) -> Map<Seq<char>, Seq<char>> {
    Map::new(
        |h: Seq<char>| has_handle(members, h),
        |h: Seq<char>|
            members[choose|i: int| 0 <= i < members.len() && members[i].ascii_name@ == h].name@,
    )
}

/// Lookup table from member handle to display name, built once from all
/// member records and read by every later stage.
#[derive(Clone, Debug)]
pub struct NameMap {
    entries: Vec<(String, String)>,
}

impl View for NameMap {
    type V = Map<Seq<char>, Seq<char>>;

    closed spec fn view(&self) -> Map<Seq<char>, Seq<char>> {
        Map::new(
            |h: Seq<char>| exists|i: int| 0 <= i < self.entries@.len() && self.entries@[i].0@ == h,
            |h: Seq<char>|
                self.entries@[choose|i: int|
                    0 <= i < self.entries@.len() && self.entries@[i].0@ == h].1@,
        )
    }
}

/// What can go wrong while the table is built.
#[derive(Clone, Debug, PartialEq, Eq)]
pub enum NameMapError {
    /// Two member records share this handle.
    DuplicateHandle(String),
}

impl NameMap {
    /// Every handle is stored once.
    pub closed spec fn wf(&self) -> bool {
        forall|i: int, j: int|
            0 <= i < j < self.entries@.len() ==> self.entries@[i].0@ != self.entries@[j].0@
    }

    /// Builds the table from all member records. A handle that two records
    /// share is refused, so that no member silently replaces another.
    pub fn build(members: &Vec<MemberMeta>) -> (r: Result<NameMap, NameMapError>)
        ensures
            r is Ok <==> unique_handles(members@),
            r matches Ok(t) ==> t.wf() && t@ == member_names(members@),
            r matches Err(NameMapError::DuplicateHandle(h)) ==> exists|i: int, j: int|
                0 <= i < j < members@.len() && members@[i].ascii_name@ == h@
                    && members@[j].ascii_name@ == h@,
    {
        let mut entries: Vec<(String, String)> = Vec::new();
        let mut k: usize = 0;
        while k < members.len()
            invariant
                k <= members@.len(),
                entries@.len() == k,
                forall|i: int|
                    0 <= i < k ==> (#[trigger] entries@[i]).0@ == members@[i].ascii_name@
                        && entries@[i].1@ == members@[i].name@,
                forall|i: int, j: int|
                    0 <= i < j < k ==> members@[i].ascii_name@ != members@[j].ascii_name@,
            decreases members@.len() - k,
        {
            let m = &members[k];
            let mut i: usize = 0;
            while i < k
                invariant
                    i <= k,
                    k < members@.len(),
                    entries@.len() == k,
                    m == members@[k as int],
                    forall|x: int|
                        0 <= x < k ==> (#[trigger] entries@[x]).0@ == members@[x].ascii_name@,
                    forall|x: int| 0 <= x < i ==> members@[x].ascii_name@ != m.ascii_name@,
                decreases k - i,
            {
                if str_eq(entries[i].0.as_str(), m.ascii_name.as_str()) {
                    let h = m.ascii_name.clone();
                    assert(!unique_handles(members@)) by {
                        assert(members@[i as int].ascii_name@ == members@[k as int].ascii_name@);
                    }
                    return Err(NameMapError::DuplicateHandle(h));
                }
                i = i + 1;
            }
            entries.push((m.ascii_name.clone(), m.name.clone()));
            k = k + 1;
        }
        let t = NameMap { entries };
        proof {
            assert(t@ =~= member_names(members@)) by {
                assert forall|h: Seq<char>| #[trigger] t@.contains_key(h) == has_handle(members@, h) by {
                    if has_handle(members@, h) {
                        let j = choose|j: int| 0 <= j < members@.len() && members@[j].ascii_name@ == h;
                        assert(t.entries@[j].0@ == h);
                    }
                }
                assert forall|h: Seq<char>| #[trigger] t@.contains_key(h) implies t@[h]
                    == member_names(members@)[h] by {
                    let a = choose|i: int| 0 <= i < t.entries@.len() && t.entries@[i].0@ == h;
                    let b = choose|i: int| 0 <= i < members@.len() && members@[i].ascii_name@ == h;
                    assert(t.entries@[b].0@ == h);
                    if a < b {
                        assert(members@[a].ascii_name@ != members@[b].ascii_name@);
                    } else if b < a {
                        assert(members@[b].ascii_name@ != members@[a].ascii_name@);
                    }
                }
            }
        }
        Ok(t)
    }

    /// The display name stored under `handle`.
    pub fn get(&self, handle: &str) -> (r: Option<&String>)
        requires
            self.wf(),
        ensures
            r is Some <==> self@.contains_key(handle@),
            r matches Some(n) ==> n@ == self@[handle@],
    {
        let mut i: usize = 0;
        while i < self.entries.len()
            invariant
                self.wf(),
                i <= self.entries@.len(),
                forall|x: int| 0 <= x < i ==> self.entries@[x].0@ != handle@,
            decreases self.entries@.len() - i,
        {
            if str_eq(self.entries[i].0.as_str(), handle) {
                proof {
                    assert(self.entries@[i as int].0@ == handle@);
                    assert(self@.contains_key(handle@));
                    let a = choose|x: int|
                        0 <= x < self.entries@.len() && self.entries@[x].0@ == handle@;
                    if a < i {
                        assert(self.entries@[a].0@ != handle@);
                    } else if a > i {
                        assert(self.entries@[i as int].0@ != self.entries@[a].0@);
                    }
                    assert(self@[handle@] == self.entries@[i as int].1@);
                }
                return Some(&self.entries[i].1);
            }
            i = i + 1;
        }
        None
    }

    /// Whether `handle` names a member.
    pub fn contains_key(&self, handle: &str) -> (r: bool)
        requires
            self.wf(),
        ensures
            r == self@.contains_key(handle@),
    {
        self.get(handle).is_some()
    }
}

/// Lookup after building returns, for every member, exactly that member's
/// display name, and no handle outside the member set resolves.
pub proof fn lemma_lookup_after_build(members: Seq<MemberMeta>)
    requires
        unique_handles(members),
    ensures
        forall|i: int|
            0 <= i < members.len() ==> #[trigger] member_names(members)[members[i].ascii_name@]
                == members[i].name@,
        forall|i: int|
            0 <= i < members.len() ==> member_names(members).contains_key(
                #[trigger] members[i].ascii_name@,
            ),
        forall|h: Seq<char>| #[trigger]
            member_names(members).contains_key(h) ==> has_handle(members, h),
{
    assert forall|i: int| 0 <= i < members.len() implies #[trigger] member_names(
        members,
    )[members[i].ascii_name@] == members[i].name@ by {
        let h = members[i].ascii_name@;
        assert(has_handle(members, h));
        let c = choose|j: int| 0 <= j < members.len() && members[j].ascii_name@ == h;
        if c < i {
            assert(members[c].ascii_name@ != members[i].ascii_name@);
        } else if i < c {
            assert(members[i].ascii_name@ != members[c].ascii_name@);
        }
    }
    assert forall|i: int| 0 <= i < members.len() implies member_names(members).contains_key(
        #[trigger] members[i].ascii_name@,
    ) by {
        assert(has_handle(members, members[i].ascii_name@));
    }
}

} // verus!
