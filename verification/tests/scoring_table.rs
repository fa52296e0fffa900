use penca::scoring_rules::{
    apply_scoring_result, ClubMatchOutcome, FriendPlayerEvent, PredictionOutcome, ScoringRule,
    SelectedPlayerEvent,
};

fn club(outcome: ClubMatchOutcome) -> i32 {
    apply_scoring_result(ScoringRule::ClubMatchResult(outcome))
}

fn against_wildcard(outcome: ClubMatchOutcome) -> i32 {
    club(ClubMatchOutcome::VsWildcard(Box::new(outcome)))
}

#[test]
fn table_scenario() {
    assert_eq!(against_wildcard(ClubMatchOutcome::LossByLargeMargin), -4);
    assert_eq!(
        apply_scoring_result(ScoringRule::PredictedMatchResult(PredictionOutcome::ExactSpecial)),
        20
    );
    assert_eq!(
        apply_scoring_result(ScoringRule::SelectedPlayerEvent(SelectedPlayerEvent::MissedPenalty)),
        -4
    );
}

#[test]
fn club_results() {
    assert_eq!(club(ClubMatchOutcome::Win), 3);
    assert_eq!(club(ClubMatchOutcome::Draw), 1);
    assert_eq!(club(ClubMatchOutcome::Loss), 0);
    assert_eq!(club(ClubMatchOutcome::WinByLargeMargin), 4);
    assert_eq!(club(ClubMatchOutcome::LossByLargeMargin), -1);
}

#[test]
fn club_results_against_a_wildcard() {
    assert_eq!(against_wildcard(ClubMatchOutcome::Win), 6);
    assert_eq!(against_wildcard(ClubMatchOutcome::Draw), 2);
    assert_eq!(against_wildcard(ClubMatchOutcome::Loss), -3);
    assert_eq!(against_wildcard(ClubMatchOutcome::WinByLargeMargin), 8);
    assert_eq!(against_wildcard(ClubMatchOutcome::LossByLargeMargin), -4);
}

#[test]
fn wildcard_row_is_no_multiple_of_the_plain_row() {
    assert_eq!(against_wildcard(ClubMatchOutcome::WinByLargeMargin), 2 * club(ClubMatchOutcome::WinByLargeMargin));
    assert_eq!(
        against_wildcard(ClubMatchOutcome::LossByLargeMargin),
        4 * club(ClubMatchOutcome::LossByLargeMargin)
    );
    assert_eq!(club(ClubMatchOutcome::Loss), 0);
    assert_eq!(against_wildcard(ClubMatchOutcome::Loss), -3);
}

#[test]
fn wildcard_inside_wildcard_is_worth_nothing() {
    assert_eq!(
        against_wildcard(ClubMatchOutcome::VsWildcard(Box::new(ClubMatchOutcome::Win))),
        0
    );
    assert_eq!(
        against_wildcard(ClubMatchOutcome::VsWildcard(Box::new(ClubMatchOutcome::LossByLargeMargin))),
        0
    );
}

#[test]
fn friend_player_events() {
    assert_eq!(apply_scoring_result(ScoringRule::FriendPlayerEvent(FriendPlayerEvent::Goal)), 2);
    assert_eq!(apply_scoring_result(ScoringRule::FriendPlayerEvent(FriendPlayerEvent::Assist)), 1);
}

#[test]
fn prediction_outcomes() {
    let points = |outcome| apply_scoring_result(ScoringRule::PredictedMatchResult(outcome));
    assert_eq!(points(PredictionOutcome::ExactSimple), 10);
    assert_eq!(points(PredictionOutcome::GeneralSimple), 3);
    assert_eq!(points(PredictionOutcome::ExactComplex), 15);
    assert_eq!(points(PredictionOutcome::GeneralComplex), 6);
    assert_eq!(points(PredictionOutcome::ExactSpecial), 20);
    assert_eq!(points(PredictionOutcome::GeneralSpecial), 9);
}

#[test]
fn selected_player_events() {
    let points = |event| apply_scoring_result(ScoringRule::SelectedPlayerEvent(event));
    assert_eq!(points(SelectedPlayerEvent::Goal), 4);
    assert_eq!(points(SelectedPlayerEvent::Assist), 2);
    assert_eq!(points(SelectedPlayerEvent::YellowCard), -1);
    assert_eq!(points(SelectedPlayerEvent::RedCard), -2);
    assert_eq!(points(SelectedPlayerEvent::OwnGoal), -4);
    assert_eq!(points(SelectedPlayerEvent::MissedPenalty), -4);
}
