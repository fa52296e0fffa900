//! Participants of a pool.

use crate::identity::is_random_uuid;
use crate::participant_id::ParticipantId;
use crate::player_id::PlayerId;
use crate::teams_id::TeamId;
use vstd::prelude::*;

verus! {

/// The tier a participant competes in.
#[derive(Debug, Clone, Copy, PartialEq, Eq)]
pub enum Division {
    A,
    B,
    C,
}

/// A participant: the two teams that are their sides, their friend player,
/// and their running total.
pub struct Participant {
    pub id: ParticipantId,
    pub name: String,
    pub teams_id: [TeamId; 2],
    pub friend_player_id: PlayerId,
    pub division: Division,
    pub total_score: i32,
    pub matches_played: u8,
    pub country: String,
}

impl Participant {
    /// A participant with a fresh identifier.
    pub fn new(
        name: String,
        country: String,
        teams_id: [TeamId; 2],
        friend_player_id: PlayerId,
        division: Division,
        total_score: i32,
        matches_played: u8,
    ) -> (participant: Self)
        ensures
            participant == (Participant {
                id: participant.id,
                name,
                teams_id,
                friend_player_id,
                division,
                total_score,
                matches_played,
                country,
            }),
            is_random_uuid(participant.id@),
    {
        Self {
            id: ParticipantId::new(),
            name,
            teams_id,
            friend_player_id,
            division,
            total_score,
            matches_played,
            country,
        }
    }

    /// Whether `team` is one of the participant's two sides.
    pub open spec fn owns(self, team: TeamId) -> bool {
        self.teams_id[0] == team || self.teams_id[1] == team
    }

    /// Whether `team` is one of the participant's two sides.
    pub fn owns_team(&self, team: &TeamId) -> (owned: bool)
        ensures
            owned == self.owns(*team),
    {
        self.teams_id[0] == *team || self.teams_id[1] == *team
    }
}

} // verus!
