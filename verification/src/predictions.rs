//! What a participant expects of a match.

use crate::matches_id::MatchId;
use crate::participant_id::ParticipantId;
use vstd::prelude::*;

verus! {

/// How a match ends for the home side.
#[derive(Debug, Clone, Copy, PartialEq, Eq)]
pub enum MatchResult {
    Win,
    Draw,
    Loss,
    WinByLargeMargin,
    LossByLargeMargin,
}

/// One participant's prediction of one match. Nothing scores predictions yet;
/// the expected result and the predicted goals are kept as given, and are not
/// held against each other.
pub struct Prediction {
    participant_id: ParticipantId,
    match_id: MatchId,
    expected_result: MatchResult,
    predicted_home_goals: u8,
    predicted_away_goals: u8,
}

/// What a prediction holds.
pub struct PredictionView {
    pub participant_id: ParticipantId,
    pub match_id: MatchId,
    pub expected_result: MatchResult,
    pub predicted_home_goals: nat,
    pub predicted_away_goals: nat,
}

impl View for Prediction {
    type V = PredictionView;

    closed spec fn view(&self) -> PredictionView {
        PredictionView {
            participant_id: self.participant_id,
            match_id: self.match_id,
            expected_result: self.expected_result,
            predicted_home_goals: self.predicted_home_goals as nat,
            predicted_away_goals: self.predicted_away_goals as nat,
        }
    }
}

impl Prediction {
    /// A prediction by `participant_id` of the match `match_id`.
    pub fn new(
        participant_id: ParticipantId,
        match_id: MatchId,
        expected_result: MatchResult,
        predicted_home_goals: u8,
        predicted_away_goals: u8,
    ) -> (prediction: Self)
        ensures
            prediction@ == (PredictionView {
                participant_id,
                match_id,
                expected_result,
                predicted_home_goals: predicted_home_goals as nat,
                predicted_away_goals: predicted_away_goals as nat,
            }),
    {
        Self {
            participant_id,
            match_id,
            expected_result,
            predicted_home_goals,
            predicted_away_goals,
        }
    }

    /// Who made the prediction.
    pub fn participant_id(&self) -> (id: ParticipantId)
        ensures
            id == self@.participant_id,
    {
        self.participant_id
    }

    /// The match the prediction is about.
    pub fn match_id(&self) -> (id: MatchId)
        ensures
            id == self@.match_id,
    {
        self.match_id
    }

    /// The expected result.
    pub fn expected_result(&self) -> (result: MatchResult)
        ensures
            result == self@.expected_result,
    {
        self.expected_result
    }

    /// The predicted goals of the home side.
    pub fn predicted_home_goals(&self) -> (goals: u8)
        ensures
            goals == self@.predicted_home_goals,
    {
        self.predicted_home_goals
    }

    /// The predicted goals of the away side.
    pub fn predicted_away_goals(&self) -> (goals: u8)
        ensures
            goals == self@.predicted_away_goals,
    {
        self.predicted_away_goals
    }
}

} // verus!
