//! Member records, the identity anchor of the content graph.

use vstd::prelude::*;

use crate::text::{all_distinct, distinct_strings, str_eq, str_views, views};

verus! {

/// One member of the club, read from `members/<handle>.md`.
#[derive(Clone, Debug)]
pub struct MemberMeta {
    /// Display name; may hold any characters.
    pub name: String,
    /// Handle: the case-sensitive ASCII key that other records use to refer
    /// to this member, and the stem of the member's page and icon files.
    pub ascii_name: String,
    pub department: Option<String>,
    /// Club office, if any.
    pub position: Option<String>,
    pub entry_year: Option<i32>,
    pub short: String,
    /// Social profile links, each once.
    pub links: Vec<String>,
}

/// Precedence of a member on the member list: club offices first, then
/// members with any other role, then members without one.
#[derive(Clone, Copy, Debug, PartialEq, Eq, Structural)]
pub enum RoleTier {
    President,
    VicePresident,
    PrOfficer,
    OtherRole,
    NoRole,
}

impl RoleTier {
    pub open spec fn rank_spec(self) -> int {
        match self {
            RoleTier::President => 0,
            RoleTier::VicePresident => 1,
            RoleTier::PrOfficer => 2,
            RoleTier::OtherRole => 3,
            RoleTier::NoRole => 4,
        }
    }

    pub fn rank(&self) -> (r: u8)
        ensures
            r as int == self.rank_spec(),
    {
        match self {
            RoleTier::President => 0,
            RoleTier::VicePresident => 1,
            RoleTier::PrOfficer => 2,
            RoleTier::OtherRole => 3,
            RoleTier::NoRole => 4,
        }
    }
}

/// The tier of a role string. Each office is recognised under its Japanese
/// and its English title.
pub open spec fn tier_of_role(position: Option<Seq<char>>) -> RoleTier {
    match position {
        None => RoleTier::NoRole,
        Some(p) => if p == "代表"@ || p == "president"@ {
            RoleTier::President
        } else if p == "副代表"@ || p == "vice-president"@ {
            RoleTier::VicePresident
        } else if p == "広報"@ || p == "PR officer"@ {
            RoleTier::PrOfficer
        } else {
            RoleTier::OtherRole
        },
    }
}

pub open spec fn opt_view(o: Option<String>) -> Option<Seq<char>> {
    match o {
        Some(s) => Some(s@),
        None => None,
    }
}

impl MemberMeta {
    /// Each social link is listed once.
    pub open spec fn wf(self) -> bool {
        all_distinct(views(self.links@))
    }

    /// Whether each social link is listed once.
    pub fn has_distinct_links(&self) -> (r: bool)
        ensures
            r == self.wf(),
    {
        let mut refs: Vec<&str> = Vec::new();
        let mut i: usize = 0;
        while i < self.links.len()
            invariant
                i <= self.links@.len(),
                refs@.len() == i,
                str_views(refs@) == views(self.links@).take(i as int),
            decreases self.links@.len() - i,
        {
            let h = self.links[i].as_str();
            let ghost prev = refs@;
            refs.push(h);
            assert(str_views(refs@) =~= views(self.links@).take(i as int + 1)) by {
                assert(prev.map_values(|s: &str| s@) == views(self.links@).take(i as int));
                assert forall|k: int| 0 <= k <= i implies #[trigger] str_views(refs@)[k]
                    == views(self.links@).take(i as int + 1)[k] by {
                    if k < i {
                        assert(refs@[k] == prev[k]);
                        assert(prev.map_values(|s: &str| s@)[k] == views(self.links@).take(i as int)[k]);
                    }
                }
            }
            i = i + 1;
        }
        assert(views(self.links@).take(i as int) =~= views(self.links@));
        distinct_strings(&refs)
    }

    pub open spec fn tier_spec(self) -> RoleTier {
        tier_of_role(opt_view(self.position))
    }

    /// The precedence tier of this member's role.
    pub fn role_tier(&self) -> (r: RoleTier)
        ensures
            r == self.tier_spec(),
    {
        match &self.position {
            None => RoleTier::NoRole,
            Some(p) => {
                let p = p.as_str();
                if str_eq(p, "代表") || str_eq(p, "president") {
                    RoleTier::President
                } else if str_eq(p, "副代表") || str_eq(p, "vice-president") {
                    RoleTier::VicePresident
                } else if str_eq(p, "広報") || str_eq(p, "PR officer") {
                    RoleTier::PrOfficer
                } else {
                    RoleTier::OtherRole
                }
            },
        }
    }
}

} // verus!
