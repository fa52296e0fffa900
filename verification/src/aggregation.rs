//! What a pass over a pool's matches earns each participant.
//!
//! A pass walks the matches in their stored order and stops at the first one
//! that has not been played. Every club match it reaches scores the home side
//! as a win and the away side as a loss, whatever goals were recorded; a side
//! facing a wildcard team is scored by the wildcard row of the table. Predicted
//! matches score nothing.

use crate::matches::{Difficulty, Match, MatchType};
use crate::participants::Participant;
use crate::scoring_rules::{apply_scoring_result, ClubMatchOutcome, ScoringRule};
use crate::teams::Team;
use crate::teams_id::TeamId;
use vstd::prelude::*;

verus! {

/// Whether `team` is one of the wildcard teams.
pub open spec fn is_wildcard(wildcards: Seq<Team>, team: TeamId) -> bool {
    exists|j: int| 0 <= j < wildcards.len() && (#[trigger] wildcards[j]).id == team
}

/// Whether `team` is a side of one of the participants.
pub open spec fn is_owned(participants: Seq<Participant>, team: TeamId) -> bool {
    exists|i: int| 0 <= i < participants.len() && (#[trigger] participants[i]).owns(team)
}

/// Whether the wildcard at index `j` is a side of a participant and none
/// before it is.
pub open spec fn first_owned_wildcard(
    participants: Seq<Participant>,
    wildcards: Seq<Team>,
    j: int,
) -> bool {
    &&& 0 <= j < wildcards.len()
    &&& is_owned(participants, wildcards[j].id)
    &&& forall|x: int| 0 <= x < j ==> !is_owned(participants, (#[trigger] wildcards[x]).id)
}

/// The rule applied to whoever owns the home team of `m`.
pub open spec fn home_rule(m: Match, wildcards: Seq<Team>) -> ScoringRule {
    if is_wildcard(wildcards, m.away_team_id) {
        ScoringRule::ClubMatchResult(ClubMatchOutcome::VsWildcard(Box::new(ClubMatchOutcome::Win)))
    } else {
        ScoringRule::ClubMatchResult(ClubMatchOutcome::Win)
    }
}

/// The rule applied to whoever owns the away team of `m`.
pub open spec fn away_rule(m: Match, wildcards: Seq<Team>) -> ScoringRule {
    if is_wildcard(wildcards, m.home_team_id) {
        ScoringRule::ClubMatchResult(ClubMatchOutcome::VsWildcard(Box::new(ClubMatchOutcome::Loss)))
    } else {
        ScoringRule::ClubMatchResult(ClubMatchOutcome::Loss)
    }
}

/// What `m`, once reached, adds to the total of `p`: the home rule if `p` owns
/// the home team, plus the away rule if `p` owns the away team.
pub open spec fn match_points(p: Participant, m: Match, wildcards: Seq<Team>) -> int {
    match m.match_type {
        MatchType::Club => {
            (if p.owns(m.home_team_id) {
                home_rule(m, wildcards).points()
            } else {
                0
            }) + (if p.owns(m.away_team_id) {
                away_rule(m, wildcards).points()
            } else {
                0
            })
        },
        MatchType::Predicted { .. } => 0,
    }
}

/// Whether a pass gets as far as the match at index `k`: that match and every
/// match stored before it have been played.
pub open spec fn reached(matches: Seq<Match>, k: int) -> bool {
    forall|j: int| 0 <= j <= k ==> (#[trigger] matches[j]).played
}

/// What the first `n` matches add to the total of `p`.
pub open spec fn earned_in_first(
    p: Participant,
    matches: Seq<Match>,
    wildcards: Seq<Team>,
    n: nat,
) -> int
    decreases n,
{
    if n == 0 {
        0
    } else {
        earned_in_first(p, matches, wildcards, (n - 1) as nat) + if reached(matches, n - 1) {
            match_points(p, matches[n - 1], wildcards)
        } else {
            0
        }
    }
}

/// What one pass over `matches` adds to the total of `p`.
pub open spec fn earned(p: Participant, matches: Seq<Match>, wildcards: Seq<Team>) -> int {
    earned_in_first(p, matches, wildcards, matches.len())
}

/// Whether `team` is one of the wildcard teams.
pub fn is_wildcard_team(wildcards: &Vec<Team>, team: &TeamId) -> (found: bool)
    ensures
        found == is_wildcard(wildcards@, *team),
{
    let mut j: usize = 0;
    while j < wildcards.len()
        invariant
            j <= wildcards.len(),
            forall|x: int| 0 <= x < j ==> (#[trigger] wildcards@[x]).id != *team,
        decreases wildcards.len() - j,
    {
        if wildcards[j].id == *team {
            return true;
        }
        j += 1;
    }
    false
}

/// Whether `team` is a side of one of the participants.
pub fn is_owned_team(participants: &Vec<Participant>, team: &TeamId) -> (found: bool)
    ensures
        found == is_owned(participants@, *team),
{
    let mut i: usize = 0;
    while i < participants.len()
        invariant
            i <= participants.len(),
            forall|x: int| 0 <= x < i ==> !(#[trigger] participants@[x]).owns(*team),
        decreases participants.len() - i,
    {
        if participants[i].owns_team(team) {
            return true;
        }
        i += 1;
    }
    false
}

/// What the match `m`, once reached, adds to the participant's total.
///
/// The recorded goals are not read: the home side is scored as the winner and
/// the away side as the loser. A participant who owns both teams is scored
/// for both.
pub fn match_delta(participant: &Participant, m: &Match, wildcards: &Vec<Team>) -> (delta: i32)
    ensures
        delta == match_points(*participant, *m, wildcards@),
{
    let mut delta: i32 = 0;
    match &m.match_type {
        MatchType::Club => {
            if participant.owns_team(&m.home_team_id) {
                if is_wildcard_team(wildcards, &m.away_team_id) {
                    delta += apply_scoring_result(
                        ScoringRule::ClubMatchResult(
                            ClubMatchOutcome::VsWildcard(Box::new(ClubMatchOutcome::Win)),
                        ),
                    );
                } else {
                    delta += apply_scoring_result(
                        ScoringRule::ClubMatchResult(ClubMatchOutcome::Win),
                    );
                }
            }
            if participant.owns_team(&m.away_team_id) {
                if is_wildcard_team(wildcards, &m.home_team_id) {
                    delta += apply_scoring_result(
                        ScoringRule::ClubMatchResult(
                            ClubMatchOutcome::VsWildcard(Box::new(ClubMatchOutcome::Loss)),
                        ),
                    );
                } else {
                    delta += apply_scoring_result(
                        ScoringRule::ClubMatchResult(ClubMatchOutcome::Loss),
                    );
                }
            }
        },
        MatchType::Predicted { level, selected_player: _ } => match level {
            Difficulty::Simple => {},
            Difficulty::Complex => {},
            Difficulty::Special => {},
        },
    }
    delta
}

/// What a match adds depends on a participant's two sides alone.
pub proof fn lemma_match_points_by_sides(
    p: Participant,
    q: Participant,
    m: Match,
    wildcards: Seq<Team>,
)
    requires
        p.teams_id == q.teams_id,
    ensures
        match_points(p, m, wildcards) == match_points(q, m, wildcards),
{
}

/// What a pass adds depends on a participant's two sides alone, not on the
/// total they start from.
pub proof fn lemma_earned_by_sides(
    p: Participant,
    q: Participant,
    matches: Seq<Match>,
    wildcards: Seq<Team>,
    n: nat,
)
    requires
        p.teams_id == q.teams_id,
    ensures
        earned_in_first(p, matches, wildcards, n) == earned_in_first(q, matches, wildcards, n),
    decreases n,
{
    if n > 0 {
        lemma_earned_by_sides(p, q, matches, wildcards, (n - 1) as nat);
        lemma_match_points_by_sides(p, q, matches[n - 1], wildcards);
    }
}

/// Nothing stored at or after an unplayed match adds anything.
pub proof fn lemma_pass_stops_at_unplayed(
    p: Participant,
    matches: Seq<Match>,
    wildcards: Seq<Team>,
    k: nat,
    n: nat,
)
    requires
        k < matches.len(),
        !matches[k as int].played,
        k <= n,
    ensures
        earned_in_first(p, matches, wildcards, n) == earned_in_first(p, matches, wildcards, k),
    decreases n,
{
    if n > k {
        lemma_pass_stops_at_unplayed(p, matches, wildcards, k, (n - 1) as nat);
        assert(!reached(matches, n - 1));
    }
}

/// One match never moves a total by less than -3 or by more than 6.
pub proof fn lemma_match_points_bounds(p: Participant, m: Match, wildcards: Seq<Team>)
    ensures
        -3 <= match_points(p, m, wildcards) <= 6,
{
}

/// Taking a reached match out of the list does not change whether a pass gets
/// to any of the others.
proof fn lemma_reached_without(matches: Seq<Match>, k: int, j: int)
    requires
        0 <= k < matches.len(),
        reached(matches, k),
        0 <= j < matches.len() - 1,
    ensures
        reached(matches.remove(k), j) == reached(
            matches,
            if j < k {
                j
            } else {
                j + 1
            },
        ),
{
    let rest = matches.remove(k);
    let at = if j < k {
        j
    } else {
        j + 1
    };
    if reached(matches, at) {
        assert forall|x: int| 0 <= x <= j implies (#[trigger] rest[x]).played by {
            if x < k {
                assert(matches[x].played);
            } else {
                assert(matches[x + 1].played);
            }
        }
    }
    if reached(rest, j) {
        assert forall|x: int| 0 <= x <= at implies (#[trigger] matches[x]).played by {
            if x < k {
                assert(rest[x].played);
            } else if x > k {
                assert(rest[x - 1].played);
            }
        }
    }
}

/// A reached match adds what it is worth on top of what the other matches
/// add: the first `n` matches earn the same as they do with the match at `k`
/// taken out, plus the worth of that match once `n` is past it.
pub proof fn lemma_earned_in_first_splits(
    p: Participant,
    matches: Seq<Match>,
    wildcards: Seq<Team>,
    k: int,
    n: nat,
)
    requires
        0 <= k < matches.len(),
        reached(matches, k),
        n <= matches.len(),
    ensures
        n <= k ==> earned_in_first(p, matches, wildcards, n) == earned_in_first(
            p,
            matches.remove(k),
            wildcards,
            n,
        ),
        n > k ==> earned_in_first(p, matches, wildcards, n) == match_points(
            p,
            matches[k],
            wildcards,
        ) + earned_in_first(p, matches.remove(k), wildcards, (n - 1) as nat),
    decreases n,
{
    let rest = matches.remove(k);
    if n > 0 {
        lemma_earned_in_first_splits(p, matches, wildcards, k, (n - 1) as nat);
        if n <= k {
            lemma_reached_without(matches, k, n - 1);
            assert(rest[n - 1] == matches[n - 1]);
        } else if n == k + 1 {
        } else {
            lemma_reached_without(matches, k, n - 2);
            assert(rest[n - 2] == matches[n - 1]);
        }
    }
}

/// A reached match adds what it is worth on top of what a pass over the other
/// matches earns.
pub proof fn lemma_earned_splits(p: Participant, matches: Seq<Match>, wildcards: Seq<Team>, k: int)
    requires
        0 <= k < matches.len(),
        reached(matches, k),
    ensures
        earned(p, matches, wildcards) == match_points(p, matches[k], wildcards) + earned(
            p,
            matches.remove(k),
            wildcards,
        ),
{
    lemma_earned_in_first_splits(p, matches, wildcards, k, matches.len());
}

/// A pass that meets an unplayed match first, or no match at all, earns
/// nothing.
pub proof fn lemma_earned_nothing(p: Participant, matches: Seq<Match>, wildcards: Seq<Team>)
    requires
        matches.len() == 0 || !matches[0].played,
    ensures
        earned(p, matches, wildcards) == 0,
{
    if matches.len() > 0 {
        lemma_pass_stops_at_unplayed(p, matches, wildcards, 0, matches.len());
    }
}

/// A reached club match whose away team is a wildcard adds 6 for whoever owns
/// the home team. The one exception is an owner who also owns the away team
/// while the home team is a wildcard too: the away side then costs them 3.
pub proof fn lemma_home_side_against_wildcard(p: Participant, m: Match, wildcards: Seq<Team>)
    requires
        m.match_type is Club,
        p.owns(m.home_team_id),
        is_wildcard(wildcards, m.away_team_id),
        !(p.owns(m.away_team_id) && is_wildcard(wildcards, m.home_team_id)),
    ensures
        match_points(p, m, wildcards) == 6,
{
}

/// A reached club match between two teams that are not wildcards adds 3 for
/// whoever owns the home team, and nothing for an owner of the away team who
/// does not own the home team as well.
pub proof fn lemma_plain_club_match(p: Participant, m: Match, wildcards: Seq<Team>)
    requires
        m.match_type is Club,
        !is_wildcard(wildcards, m.home_team_id),
        !is_wildcard(wildcards, m.away_team_id),
    ensures
        p.owns(m.home_team_id) ==> match_points(p, m, wildcards) == 3,
        !p.owns(m.home_team_id) ==> match_points(p, m, wildcards) == 0,
{
}

} // verus!
