//! The fixed scoring table: every classified outcome has one point delta.

use vstd::prelude::*;

verus! {

/// A classified outcome, by rule family.
#[derive(Debug, PartialEq, Eq)]
pub enum ScoringRule {
    ClubMatchResult(ClubMatchOutcome),
    FriendPlayerEvent(FriendPlayerEvent),
    PredictedMatchResult(PredictionOutcome),
    SelectedPlayerEvent(SelectedPlayerEvent),
}

/// How a club match ended for a participant's side. `VsWildcard` wraps the
/// plain result of a match played against a wildcard team.
#[derive(Debug, PartialEq, Eq)]
pub enum ClubMatchOutcome {
    Win,
    Loss,
    Draw,
    WinByLargeMargin,
    LossByLargeMargin,
    VsWildcard(Box<ClubMatchOutcome>),
}

/// Something a participant's friend player did.
#[derive(Debug, Clone, Copy, PartialEq, Eq)]
pub enum FriendPlayerEvent {
    Goal,
    Assist,
}

/// How close a prediction came, by the difficulty of the predicted match.
#[derive(Debug, Clone, Copy, PartialEq, Eq)]
pub enum PredictionOutcome {
    ExactSimple,
    GeneralSimple,
    ExactComplex,
    GeneralComplex,
    ExactSpecial,
    GeneralSpecial,
}

/// Something the player selected for a predicted match did.
#[derive(Debug, Clone, Copy, PartialEq, Eq)]
pub enum SelectedPlayerEvent {
    Goal,
    Assist,
    YellowCard,
    RedCard,
    OwnGoal,
    MissedPenalty,
}

impl ClubMatchOutcome {
    /// Points for a result against a wildcard team. The wildcard row is a table
    /// of its own, not a multiple of the plain row. A wildcard marker inside a
    /// wildcard marker classifies nothing and is worth 0.
    pub open spec fn points_vs_wildcard(self) -> int {
        match self {
            ClubMatchOutcome::Win => 6,
            ClubMatchOutcome::Draw => 2,
            ClubMatchOutcome::Loss => -3,
            ClubMatchOutcome::WinByLargeMargin => 8,
            ClubMatchOutcome::LossByLargeMargin => -4,
            ClubMatchOutcome::VsWildcard(_) => 0,
        }
    }

    /// Points for a club match result.
    pub open spec fn points(self) -> int {
        match self {
            ClubMatchOutcome::Win => 3,
            ClubMatchOutcome::Draw => 1,
            ClubMatchOutcome::Loss => 0,
            ClubMatchOutcome::WinByLargeMargin => 4,
            ClubMatchOutcome::LossByLargeMargin => -1,
            ClubMatchOutcome::VsWildcard(inner) => inner.points_vs_wildcard(),
        }
    }
}

impl FriendPlayerEvent {
    /// Points for a friend-player event.
    pub open spec fn points(self) -> int {
        match self {
            FriendPlayerEvent::Goal => 2,
            FriendPlayerEvent::Assist => 1,
        }
    }
}

impl PredictionOutcome {
    /// Points for a prediction outcome.
    pub open spec fn points(self) -> int {
        match self {
            PredictionOutcome::ExactSimple => 10,
            PredictionOutcome::GeneralSimple => 3,
            PredictionOutcome::ExactComplex => 15,
            PredictionOutcome::GeneralComplex => 6,
            PredictionOutcome::ExactSpecial => 20,
            PredictionOutcome::GeneralSpecial => 9,
        }
    }
}

impl SelectedPlayerEvent {
    /// Points for a selected-player event.
    pub open spec fn points(self) -> int {
        match self {
            SelectedPlayerEvent::Goal => 4,
            SelectedPlayerEvent::Assist => 2,
            SelectedPlayerEvent::YellowCard => -1,
            SelectedPlayerEvent::RedCard => -2,
            SelectedPlayerEvent::OwnGoal => -4,
            SelectedPlayerEvent::MissedPenalty => -4,
        }
    }
}

impl ScoringRule {
    /// The point delta of an outcome: the scoring table.
    pub open spec fn points(self) -> int {
        match self {
            ScoringRule::ClubMatchResult(outcome) => outcome.points(),
            ScoringRule::FriendPlayerEvent(event) => event.points(),
            ScoringRule::PredictedMatchResult(outcome) => outcome.points(),
            ScoringRule::SelectedPlayerEvent(event) => event.points(),
        }
    }
}

/// Looks an outcome up in the scoring table.
pub fn apply_scoring_result(rule: ScoringRule) -> (delta: i32)
    ensures
        delta == rule.points(),
{
    match rule {
        ScoringRule::ClubMatchResult(outcome) => match outcome {
            ClubMatchOutcome::Win => 3,
            ClubMatchOutcome::WinByLargeMargin => 4,
            ClubMatchOutcome::Draw => 1,
            ClubMatchOutcome::Loss => 0,
            ClubMatchOutcome::LossByLargeMargin => -1,
            ClubMatchOutcome::VsWildcard(inner) => match *inner {
                ClubMatchOutcome::Win => 6,
                ClubMatchOutcome::WinByLargeMargin => 8,
                ClubMatchOutcome::Draw => 2,
                ClubMatchOutcome::Loss => -3,
                ClubMatchOutcome::LossByLargeMargin => -4,
                ClubMatchOutcome::VsWildcard(_) => 0,
            },
        },
        ScoringRule::FriendPlayerEvent(event) => match event {
            FriendPlayerEvent::Goal => 2,
            FriendPlayerEvent::Assist => 1,
        },
        ScoringRule::PredictedMatchResult(outcome) => match outcome {
            PredictionOutcome::ExactSimple => 10,
            PredictionOutcome::GeneralSimple => 3,
            PredictionOutcome::ExactComplex => 15,
            PredictionOutcome::GeneralComplex => 6,
            PredictionOutcome::ExactSpecial => 20,
            PredictionOutcome::GeneralSpecial => 9,
        },
        ScoringRule::SelectedPlayerEvent(event) => match event {
            SelectedPlayerEvent::Goal => 4,
            SelectedPlayerEvent::Assist => 2,
            SelectedPlayerEvent::YellowCard => -1,
            SelectedPlayerEvent::RedCard => -2,
            SelectedPlayerEvent::OwnGoal => -4,
            SelectedPlayerEvent::MissedPenalty => -4,
        },
    }
}

} // verus!
