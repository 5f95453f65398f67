use vstd::prelude::*;

verus! {

/// The body of a request to create a leaderboard.
#[derive(Debug, Clone, Default, PartialEq, Eq)]
pub struct CreateBoardPayload {
    pub name: String,
}

} // verus!
