//! Players and their cumulative statistics.

use crate::identity::is_random_uuid;
use crate::player_id::PlayerId;
use crate::teams_id::TeamId;
use vstd::prelude::*;

verus! {

/// A player, the team they currently play for, and their counters.
pub struct Player {
    pub id: PlayerId,
    name: String,
    current_team_id: TeamId,
    goals: u32,
    self_goals: u32,
    assists: u32,
    yellow_cards: u32,
    red_cards: u32,
}

/// What a player holds.
pub struct PlayerView {
    pub id: PlayerId,
    pub name: Seq<char>,
    pub current_team_id: TeamId,
    pub goals: nat,
    pub self_goals: nat,
    pub assists: nat,
    pub yellow_cards: nat,
    pub red_cards: nat,
}

impl View for Player {
    type V = PlayerView;

    closed spec fn view(&self) -> PlayerView {
        PlayerView {
            id: self.id,
            name: self.name@,
            current_team_id: self.current_team_id,
            goals: self.goals as nat,
            self_goals: self.self_goals as nat,
            assists: self.assists as nat,
            yellow_cards: self.yellow_cards as nat,
            red_cards: self.red_cards as nat,
        }
    }
}

impl Player {
    /// A player with a fresh identifier and every counter at zero.
    pub fn new(name: String, current_team_id: TeamId) -> (player: Self)
        ensures
            player@ == (PlayerView {
                id: player@.id,
                name: name@,
                current_team_id,
                goals: 0,
                self_goals: 0,
                assists: 0,
                yellow_cards: 0,
                red_cards: 0,
            }),
            is_random_uuid(player@.id@),
    {
        Self {
            id: PlayerId::new(),
            name,
            current_team_id,
            goals: 0,
            self_goals: 0,
            assists: 0,
            yellow_cards: 0,
            red_cards: 0,
        }
    }

    /// The player's identifier.
    pub fn id(&self) -> (id: PlayerId)
        ensures
            id == self@.id,
    {
        self.id
    }

    /// The player's name.
    pub fn name(&self) -> (name: &String)
        ensures
            name@ == self@.name,
    {
        &self.name
    }

    /// The team the player currently plays for.
    pub fn current_team_id(&self) -> (team: TeamId)
        ensures
            team == self@.current_team_id,
    {
        self.current_team_id
    }

    /// Goals scored.
    pub fn goals(&self) -> (n: u32)
        ensures
            n == self@.goals,
    {
        self.goals
    }

    /// Own goals.
    pub fn self_goals(&self) -> (n: u32)
        ensures
            n == self@.self_goals,
    {
        self.self_goals
    }

    /// Assists.
    pub fn assists(&self) -> (n: u32)
        ensures
            n == self@.assists,
    {
        self.assists
    }

    /// Yellow cards.
    pub fn yellow_cards(&self) -> (n: u32)
        ensures
            n == self@.yellow_cards,
    {
        self.yellow_cards
    }

    /// Red cards.
    pub fn red_cards(&self) -> (n: u32)
        ensures
            n == self@.red_cards,
    {
        self.red_cards
    }
}

} // verus!
