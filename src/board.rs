use crate::db::Id;
use vstd::prelude::*;

verus! {

/// A named leaderboard, as the relational store keeps it.
#[derive(Debug, Clone, PartialEq, Eq)]
pub struct Leaderboard {
    pub id: i32,
    pub name: String,
}

/// One player's membership of a leaderboard, as the relational store keeps it.
#[derive(Debug, Clone, PartialEq, Eq)]
pub struct LeaderboardMember {
    pub id: i32,
    pub leaderboard: i32,
    pub player_alias: Option<String>,
    pub player: Id,
}

} // verus!
