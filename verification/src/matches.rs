//! Matches and their recorded results.

use crate::identity::is_random_uuid;
use crate::matches_id::MatchId;
use crate::player::Player;
use crate::teams_id::TeamId;
use chrono::NaiveDateTime;
use vstd::prelude::*;

verus! {

/// `chrono::NaiveDateTime`: a date and a time of day without a time zone. A
/// match carries its kick-off as one; nothing here looks inside it.
#[verifier::external_type_specification]
#[verifier::external_body]
pub struct ExNaiveDateTime(NaiveDateTime);

/// How hard a predicted match is to call.
#[derive(Debug, Clone, Copy, PartialEq, Eq)]
pub enum Difficulty {
    Simple,
    Complex,
    Special,
}

/// What kind of match this is: a club match, scored by who owns the teams, or
/// a match whose result participants predict.
pub enum MatchType {
    Club,
    Predicted { level: Difficulty, selected_player: Option<Player> },
}

/// A match between a home and an away team. Goals stay at 0 and `played` stays
/// false until a result is recorded.
pub struct Match {
    pub home_team_id: TeamId,
    pub away_team_id: TeamId,
    pub home_goals: u8,
    pub away_goals: u8,
    pub date: NaiveDateTime,
    pub is_friendly: bool,
    pub match_type: MatchType,
    pub id: MatchId,
    pub played: bool,
}

impl Match {
    /// An unplayed match with a fresh identifier.
    pub fn new(
        home_team_id: TeamId,
        away_team_id: TeamId,
        date: NaiveDateTime,
        is_friendly: bool,
        match_type: MatchType,
    ) -> (new_match: Self)
        ensures
            new_match == (Match {
                home_team_id,
                away_team_id,
                home_goals: 0,
                away_goals: 0,
                date,
                is_friendly,
                match_type,
                id: new_match.id,
                played: false,
            }),
            is_random_uuid(new_match.id@),
    {
        Self {
            home_team_id,
            away_team_id,
            home_goals: 0,
            away_goals: 0,
            date,
            is_friendly,
            match_type,
            id: MatchId::new(),
            played: false,
        }
    }

    /// Records the final result: the match counts as played from now on.
    pub fn insert_result(&mut self, home_goals: u8, away_goals: u8)
        ensures
            *final(self) == (Match { home_goals, away_goals, played: true, ..*old(self) }),
    {
        self.home_goals = home_goals;
        self.away_goals = away_goals;
        self.played = true;
    }
}

} // verus!
