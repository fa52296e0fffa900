use chrono::NaiveDate;
use penca::leagues::League;
use penca::participants::{self, Participant};
use penca::pencas::{Penca, PencaFormat};
use penca::player::Player;
use penca::teams::Team;

#[test]
fn e2e_full() {
    let mut penca = Penca::new(PencaFormat::MixMode);
    let league1 = League::new("Champions League".to_string());
    let mundial = League::new("Mundial femenino".to_string());
    let real_team = Team::new("Real Madrid".to_string(), league1.id.clone());
    let barca_team = Team::new("Barcelona".to_string(), league1.id.clone());
    let france_team = Team::new("Francia".to_string(), mundial.id.clone());
    let argentina_team = Team::new("Argentina".to_string(), mundial.id.clone());
    let player1 = Player::new("Federico Valverde".to_string(), real_team.id.clone());
    let player2 = Player::new("Lionel Messi".to_string(), argentina_team.id.clone());
    let participant1 = Participant::new(
        "Diego".to_string(),
        "Uruguay".to_string(),
        [real_team.id.clone(), france_team.id.clone()],
        player1.id.clone(),
        participants::Division::A,
        0,
        0,
    );
    let participant2 = Participant::new(
        "Diego2".to_string(),
        "Argentina".to_string(),
        [barca_team.id.clone(), argentina_team.id.clone()],
        player2.id.clone(),
        participants::Division::A,
        0,
        0,
    );
    penca.add_participant(participant1);
    penca.add_participant(participant2);
    let mut match_m = penca::matches::Match::new(
        argentina_team.id.clone(),
        france_team.id.clone(),
        chrono::NaiveDateTime::new(
            NaiveDate::from_ymd_opt(2025, 6, 1).unwrap(),
            chrono::NaiveTime::from_hms_opt(12, 0, 0).unwrap(),
        ),
        false,
        penca::matches::MatchType::Club,
    );
    let mut match_c = penca::matches::Match::new(
        real_team.id.clone(),
        barca_team.id.clone(),
        chrono::NaiveDateTime::new(
            NaiveDate::from_ymd_opt(2025, 6, 1).unwrap(),
            chrono::NaiveTime::from_hms_opt(12, 0, 0).unwrap(),
        ),
        false,
        penca::matches::MatchType::Club,
    );
    match_c.insert_result(2, 1);
    match_m.insert_result(1, 0);
    penca.add_match(match_c);
    penca.add_match(match_m);
    assert!(penca.totals_fit());
    penca.update();

    // Real Madrid at home earns Diego 3, Francia away earns him nothing;
    // Argentina at home earns Diego2 3, Barcelona away earns them nothing.
    assert_eq!(penca.participants().len(), 2);
    assert_eq!(penca.participants()[0].total_score, 3);
    assert_eq!(penca.participants()[1].total_score, 3);
    assert_eq!(penca.matches().len(), 2);
    assert_eq!(penca.format(), PencaFormat::MixMode);
}
