//! Teams.

use crate::identity::is_random_uuid;
use crate::leagues_id::LeagueId;
use crate::teams_id::TeamId;
use vstd::prelude::*;

verus! {

/// A team and the league it plays in.
pub struct Team {
    pub id: TeamId,
    pub name: String,
    pub league_id: LeagueId,
}

impl Team {
    /// A team with a fresh identifier.
    pub fn new(name: String, league_id: LeagueId) -> (team: Self)
        ensures
            team == (Team { id: team.id, name, league_id }),
            is_random_uuid(team.id@),
    {
        Self { id: TeamId::new(), name, league_id }
    }
}

} // verus!
