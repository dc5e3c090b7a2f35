//! Members and their experience, as the ranking stores them.

use vstd::prelude::*;

verus! {

/// What a message earned its author: the level reached, or a negative level
/// where none was reached, and the ranks that go and come with it.
#[derive(PartialEq, Eq, Structural, Clone, Copy, Debug)]
pub struct LevelUp {
    pub level: i32,
    pub old_rank: Option<u64>,
    pub new_rank: Option<u64>,
}

impl LevelUp {
    /// Level 0 and no change of rank.
    pub fn new() -> (level_up: Self)
        ensures
            level_up == (LevelUp { level: 0, old_rank: None, new_rank: None }),
    {
        LevelUp { level: 0, old_rank: None, new_rank: None }
    }
}

/// The experience of a member.
#[derive(PartialEq, Eq, Structural, Clone, Copy, Debug)]
pub struct Experience {
    pub level: i32,
    pub xp: i32,
}

impl Experience {
    /// Level 0 with no experience.
    pub fn new() -> (experience: Self)
        ensures
            experience == (Experience { level: 0, xp: 0 }),
    {
        Experience { level: 0, xp: 0 }
    }
}

/// A member in the ranking.
#[derive(PartialEq, Eq, Structural, Clone, Copy, Debug)]
pub struct Member {
    pub id: u64,
    pub exp: Experience,
}

/// A member with the rank role that the ranking expects.
#[derive(PartialEq, Eq, Structural, Clone, Copy, Debug)]
pub struct FullMember {
    pub user: u64,
    pub exp: Experience,
    pub role_id: Option<u64>,
}

/// A rank: a role that comes with a level.
#[derive(PartialEq, Eq, Clone, Debug)]
pub struct Rank {
    pub name: String,
    pub role_id: Option<u64>,
    pub min_level: i32,
}

/// One page of the ranking.
#[derive(PartialEq, Eq, Clone, Debug)]
pub struct MemberPagination {
    pub members: Vec<Member>,
    pub current_page: i32,
    pub last_page: i32,
}

} // verus!
