//! The pool: its participants, wildcard teams and matches, and the pass that
//! turns played matches into points.

use crate::aggregation::{
    earned, earned_in_first, first_owned_wildcard, is_owned, is_owned_team, is_wildcard,
    lemma_earned_by_sides, lemma_earned_nothing, lemma_earned_splits,
    lemma_home_side_against_wildcard, lemma_match_points_bounds, lemma_match_points_by_sides,
    lemma_pass_stops_at_unplayed, lemma_plain_club_match, match_delta, reached,
};
use crate::errors::ValidationError;
use crate::matches::Match;
use crate::participants::Participant;
use crate::teams::Team;
use vstd::prelude::*;

verus! {

/// What a pool is played over. Scoring does not depend on it.
#[derive(Debug, Clone, Copy, PartialEq, Eq)]
pub enum PencaFormat {
    Traditional,
    ClubMode,
    MixMode,
}

/// Where a pool is in its life. Scoring does not depend on it.
#[derive(Debug, Clone, Copy, PartialEq, Eq)]
pub enum PencaStatus {
    Open,
    Closed,
    InProgress,
    Finished,
}

/// A pool.
pub struct Penca {
    participants: Vec<Participant>,
    wildcards: Vec<Team>,
    matches: Vec<Match>,
    format: PencaFormat,
    status: PencaStatus,
}

/// What a pool holds: participants and matches in the order they were added,
/// and the wildcard teams.
pub struct PencaView {
    pub participants: Seq<Participant>,
    pub wildcards: Seq<Team>,
    pub matches: Seq<Match>,
    pub format: PencaFormat,
    pub status: PencaStatus,
}

impl View for Penca {
    type V = PencaView;

    closed spec fn view(&self) -> PencaView {
        PencaView {
            participants: self.participants@,
            wildcards: self.wildcards@,
            matches: self.matches@,
            format: self.format,
            status: self.status,
        }
    }
}

impl PencaView {
    /// No wildcard team is a side of any participant.
    pub open spec fn wildcards_unowned(self) -> bool {
        forall|j: int|
            0 <= j < self.wildcards.len() ==> !is_owned(
                self.participants,
                (#[trigger] self.wildcards[j]).id,
            )
    }

    /// Every total stays an `i32` at every step of a pass.
    pub open spec fn totals_fit(self) -> bool {
        forall|i: int, n: nat|
            0 <= i < self.participants.len() && n <= self.matches.len() ==> i32::MIN
                <= self.participants[i].total_score + #[trigger] earned_in_first(
                self.participants[i],
                self.matches,
                self.wildcards,
                n,
            ) <= i32::MAX
    }

    /// Whether `self` is what one pass makes of `before`: every participant's
    /// total has grown by what the pass earns them, and nothing else differs.
    pub open spec fn aggregated_from(self, before: PencaView) -> bool {
        &&& self.wildcards == before.wildcards
        &&& self.matches == before.matches
        &&& self.format == before.format
        &&& self.status == before.status
        &&& self.participants.len() == before.participants.len()
        &&& forall|i: int|
            0 <= i < before.participants.len() ==> {
                &&& (#[trigger] self.participants[i]).total_score
                    == before.participants[i].total_score + earned(
                    before.participants[i],
                    before.matches,
                    before.wildcards,
                )
                &&& self.participants[i] == (Participant {
                    total_score: self.participants[i].total_score,
                    ..before.participants[i]
                })
            }
    }
}

impl Penca {
    /// An open pool with no participants, wildcards or matches.
    pub fn new(format: PencaFormat) -> (penca: Self)
        ensures
            penca@ == (PencaView {
                participants: Seq::empty(),
                wildcards: Seq::empty(),
                matches: Seq::empty(),
                format,
                status: PencaStatus::Open,
            }),
    {
        Self {
            participants: Vec::new(),
            wildcards: Vec::new(),
            matches: Vec::new(),
            format,
            status: PencaStatus::Open,
        }
    }

    /// Appends a participant. Nothing is checked: the same participant may be
    /// added twice.
    pub fn add_participant(&mut self, participant: Participant)
        ensures
            final(self)@ == (PencaView {
                participants: old(self)@.participants.push(participant),
                ..old(self)@
            }),
    {
        self.participants.push(participant);
    }

    /// Appends a match.
    pub fn add_match(&mut self, match_: Match)
        ensures
            final(self)@ == (PencaView { matches: old(self)@.matches.push(match_), ..old(self)@ }),
    {
        self.matches.push(match_);
    }

    /// Runs one pass: adds to every participant's total what the played matches
    /// at the front of the match list earn them. A second pass adds the same
    /// points again; nothing marks a match as already scored.
    ///
    /// The totals are `i32`, so the pass asks that none of them leaves that
    /// range on the way.
    pub fn update(&mut self)
        requires
            old(self)@.totals_fit(),
        ensures
            final(self)@.aggregated_from(old(self)@),
    {
        let ghost before = self@;
        let mut k: usize = 0;
        while k < self.matches.len() && self.matches[k].played
            invariant
                k <= self.matches.len(),
                before.totals_fit(),
                self.matches@ == before.matches,
                self.wildcards@ == before.wildcards,
                self.format == before.format,
                self.status == before.status,
                self.participants@.len() == before.participants.len(),
                k > 0 ==> reached(before.matches, k - 1),
                forall|i: int|
                    0 <= i < before.participants.len() ==> {
                        &&& (#[trigger] self.participants@[i]).total_score
                            == before.participants[i].total_score + earned_in_first(
                            before.participants[i],
                            before.matches,
                            before.wildcards,
                            k as nat,
                        )
                        &&& self.participants@[i] == (Participant {
                            total_score: self.participants@[i].total_score,
                            ..before.participants[i]
                        })
                    },
            decreases self.matches.len() - k,
        {
            let mut i: usize = 0;
            while i < self.participants.len()
                invariant
                    k < self.matches.len(),
                    i <= self.participants.len(),
                    before.totals_fit(),
                    self.matches@ == before.matches,
                    self.wildcards@ == before.wildcards,
                    self.format == before.format,
                    self.status == before.status,
                    self.participants@.len() == before.participants.len(),
                    reached(before.matches, k as int),
                    forall|x: int|
                        0 <= x < before.participants.len() ==> {
                            &&& (#[trigger] self.participants@[x]).total_score
                                == before.participants[x].total_score + earned_in_first(
                                before.participants[x],
                                before.matches,
                                before.wildcards,
                                if x < i {
                                    (k + 1) as nat
                                } else {
                                    k as nat
                                },
                            )
                            &&& self.participants@[x] == (Participant {
                                total_score: self.participants@[x].total_score,
                                ..before.participants[x]
                            })
                        },
                decreases self.participants.len() - i,
            {
                let delta = match_delta(&self.participants[i], &self.matches[k], &self.wildcards);
                assert(i32::MIN <= self.participants@[i as int].total_score + delta <= i32::MAX) by {
                    lemma_match_points_by_sides(
                        self.participants@[i as int],
                        before.participants[i as int],
                        before.matches[k as int],
                        before.wildcards,
                    );
                    assert(self.participants@[i as int].total_score + delta
                        == before.participants[i as int].total_score + earned_in_first(
                        before.participants[i as int],
                        before.matches,
                        before.wildcards,
                        (k + 1) as nat,
                    ));
                }
                self.participants[i].total_score += delta;
                i += 1;
            }
            k += 1;
        }
        proof {
            if k < before.matches.len() {
                assert forall|i: int| 0 <= i < before.participants.len() implies earned(
                    #[trigger] before.participants[i],
                    before.matches,
                    before.wildcards,
                ) == earned_in_first(
                    before.participants[i],
                    before.matches,
                    before.wildcards,
                    k as nat,
                ) by {
                    lemma_pass_stops_at_unplayed(
                        before.participants[i],
                        before.matches,
                        before.wildcards,
                        k as nat,
                        before.matches.len(),
                    );
                }
            }
        }
    }

    /// Whether a pass can run: whether every total stays an `i32` at every
    /// step of it.
    pub fn totals_fit(&self) -> (fits: bool)
        ensures
            fits == self@.totals_fit(),
    {
        let mut i: usize = 0;
        while i < self.participants.len()
            invariant
                i <= self.participants.len(),
                forall|x: int, n: nat|
                    0 <= x < i && n <= self.matches@.len() ==> i32::MIN
                        <= self.participants@[x].total_score + #[trigger] earned_in_first(
                        self.participants@[x],
                        self.matches@,
                        self.wildcards@,
                        n,
                    ) <= i32::MAX,
            decreases self.participants.len() - i,
        {
            let ghost p = self.participants@[i as int];
            let mut total: i64 = self.participants[i].total_score as i64;
            let mut k: usize = 0;
            while k < self.matches.len() && self.matches[k].played
                invariant
                    i < self.participants.len(),
                    p == self.participants@[i as int],
                    k <= self.matches.len(),
                    k > 0 ==> reached(self.matches@, k - 1),
                    total == p.total_score + earned_in_first(
                        p,
                        self.matches@,
                        self.wildcards@,
                        k as nat,
                    ),
                    forall|n: nat|
                        n <= k ==> i32::MIN <= p.total_score + #[trigger] earned_in_first(
                            p,
                            self.matches@,
                            self.wildcards@,
                            n,
                        ) <= i32::MAX,
                decreases self.matches.len() - k,
            {
                let delta = match_delta(&self.participants[i], &self.matches[k], &self.wildcards);
                proof {
                    lemma_match_points_bounds(p, self.matches@[k as int], self.wildcards@);
                }
                total = total + delta as i64;
                k += 1;
                if total < i32::MIN as i64 || total > i32::MAX as i64 {
                    proof {
                        let pool = self@;
                        assert(!(i32::MIN <= pool.participants[i as int].total_score
                            + earned_in_first(
                            pool.participants[i as int],
                            pool.matches,
                            pool.wildcards,
                            k as nat,
                        ) <= i32::MAX));
                    }
                    return false;
                }
            }
            proof {
                assert forall|n: nat| n <= self.matches@.len() implies i32::MIN <= p.total_score
                    + #[trigger] earned_in_first(p, self.matches@, self.wildcards@, n)
                    <= i32::MAX by {
                    if n > k {
                        lemma_pass_stops_at_unplayed(
                            p,
                            self.matches@,
                            self.wildcards@,
                            k as nat,
                            n,
                        );
                    }
                }
            }
            i += 1;
        }
        true
    }

    /// The participants, in the order they were added.
    pub fn participants(&self) -> (participants: &Vec<Participant>)
        ensures
            participants@ == self@.participants,
    {
        &self.participants
    }

    /// The wildcard teams.
    pub fn wildcards(&self) -> (wildcards: &Vec<Team>)
        ensures
            wildcards@ == self@.wildcards,
    {
        &self.wildcards
    }

    /// The matches, in the order they were added.
    pub fn matches(&self) -> (matches: &Vec<Match>)
        ensures
            matches@ == self@.matches,
    {
        &self.matches
    }

    /// The pool's format.
    pub fn format(&self) -> (format: PencaFormat)
        ensures
            format == self@.format,
    {
        self.format
    }

    /// The pool's status.
    pub fn status(&self) -> (status: PencaStatus)
        ensures
            status == self@.status,
    {
        self.status
    }

    /// Replaces the wildcard teams. A wildcard team may not be a side of any
    /// participant: the first offered team that is one is reported, and the
    /// pool stays as it was.
    pub fn set_wildcards(&mut self, wildcards: Vec<Team>) -> (result: Result<(), ValidationError>)
        ensures
            result is Ok <==> (PencaView { wildcards: wildcards@, ..old(self)@ }).wildcards_unowned(),
            match result {
                Ok(()) => final(self)@ == (PencaView { wildcards: wildcards@, ..old(self)@ }),
                Err(ValidationError::WildcardTeamOwned { team }) => {
                    &&& final(self)@ == old(self)@
                    &&& exists|j: int|
                        first_owned_wildcard(old(self)@.participants, wildcards@, j) && (
                        #[trigger] wildcards@[j]).id == team
                },
            },
    {
        let mut j: usize = 0;
        while j < wildcards.len()
            invariant
                j <= wildcards.len(),
                self@ == old(self)@,
                forall|x: int|
                    0 <= x < j ==> !is_owned(self.participants@, (#[trigger] wildcards@[x]).id),
            decreases wildcards.len() - j,
        {
            if is_owned_team(&self.participants, &wildcards[j].id) {
                let ghost refused = PencaView { wildcards: wildcards@, ..self@ };
                assert(is_owned(refused.participants, refused.wildcards[j as int].id));
                return Err(ValidationError::WildcardTeamOwned { team: wildcards[j].id });
            }
            j += 1;
        }
        self.wildcards = wildcards;
        Ok(())
    }

    /// Changes the pool's format.
    pub fn set_format(&mut self, format: PencaFormat)
        ensures
            final(self)@ == (PencaView { format, ..old(self)@ }),
    {
        self.format = format;
    }

    /// Changes the pool's status.
    pub fn set_status(&mut self, status: PencaStatus)
        ensures
            final(self)@ == (PencaView { status, ..old(self)@ }),
    {
        self.status = status;
    }
}

/// A pass leaves exactly one pool behind: two pools that each are what a pass
/// makes of `before` hold the same.
pub proof fn lemma_pass_is_determined(before: PencaView, first: PencaView, second: PencaView)
    requires
        first.aggregated_from(before),
        second.aggregated_from(before),
    ensures
        first == second,
{
    assert(first.participants =~= second.participants);
}

/// A reached club match whose away team is a wildcard adds exactly 6 to the
/// total of the participant who owns the home team, on top of what the other
/// matches add. Where it is the only match, that participant ends 6 points up.
///
/// Left out: a participant who owns both teams of a match whose home team is
/// a wildcard as well. The away side costs them 3 of the 6.
pub proof fn lemma_wildcard_win_adds_six(before: PencaView, after: PencaView, i: int, k: int)
    requires
        after.aggregated_from(before),
        0 <= k < before.matches.len(),
        reached(before.matches, k),
        before.matches[k].match_type is Club,
        is_wildcard(before.wildcards, before.matches[k].away_team_id),
        0 <= i < before.participants.len(),
        before.participants[i].owns(before.matches[k].home_team_id),
        !(before.participants[i].owns(before.matches[k].away_team_id) && is_wildcard(
            before.wildcards,
            before.matches[k].home_team_id,
        )),
    ensures
        after.participants[i].total_score == before.participants[i].total_score + 6 + earned(
            before.participants[i],
            before.matches.remove(k),
            before.wildcards,
        ),
        before.matches.len() == 1 ==> after.participants[i].total_score
            == before.participants[i].total_score + 6,
{
    lemma_earned_splits(before.participants[i], before.matches, before.wildcards, k);
    lemma_home_side_against_wildcard(before.participants[i], before.matches[k], before.wildcards);
}

/// A reached club match between two teams that are not wildcards adds exactly
/// 3 to the total of the participant who owns the home team, and nothing to
/// that of another participant, who owns the away team, on top of what the
/// other matches add. Where it is the only match, the first ends 3 points up
/// and the second where they were.
pub proof fn lemma_plain_win_adds_three(
    before: PencaView,
    after: PencaView,
    home: int,
    away: int,
    k: int,
)
    requires
        after.aggregated_from(before),
        0 <= k < before.matches.len(),
        reached(before.matches, k),
        before.matches[k].match_type is Club,
        !is_wildcard(before.wildcards, before.matches[k].home_team_id),
        !is_wildcard(before.wildcards, before.matches[k].away_team_id),
        0 <= home < before.participants.len(),
        0 <= away < before.participants.len(),
        before.participants[home].owns(before.matches[k].home_team_id),
        before.participants[away].owns(before.matches[k].away_team_id),
        !before.participants[away].owns(before.matches[k].home_team_id),
    ensures
        after.participants[home].total_score == before.participants[home].total_score + 3
            + earned(before.participants[home], before.matches.remove(k), before.wildcards),
        after.participants[away].total_score == before.participants[away].total_score + earned(
            before.participants[away],
            before.matches.remove(k),
            before.wildcards,
        ),
        before.matches.len() == 1 ==> {
            &&& after.participants[home].total_score == before.participants[home].total_score + 3
            &&& after.participants[away].total_score == before.participants[away].total_score
        },
{
    lemma_earned_splits(before.participants[home], before.matches, before.wildcards, k);
    lemma_earned_splits(before.participants[away], before.matches, before.wildcards, k);
    lemma_plain_club_match(before.participants[home], before.matches[k], before.wildcards);
    lemma_plain_club_match(before.participants[away], before.matches[k], before.wildcards);
}

/// A pass over matches of which none has been played changes nothing.
pub proof fn lemma_unplayed_matches_change_nothing(before: PencaView, after: PencaView)
    requires
        after.aggregated_from(before),
        forall|k: int| 0 <= k < before.matches.len() ==> !(#[trigger] before.matches[k]).played,
    ensures
        after == before,
{
    assert forall|i: int| 0 <= i < before.participants.len() implies after.participants[i]
        == before.participants[i] by {
        lemma_earned_nothing(before.participants[i], before.matches, before.wildcards);
    }
    assert(after.participants =~= before.participants);
}

/// A pass is not idempotent: a second pass adds to every total what the first
/// one added.
pub proof fn lemma_second_pass_adds_again(
    before: PencaView,
    once: PencaView,
    twice: PencaView,
    i: int,
)
    requires
        once.aggregated_from(before),
        twice.aggregated_from(once),
        0 <= i < before.participants.len(),
    ensures
        twice.participants[i].total_score - once.participants[i].total_score
            == once.participants[i].total_score - before.participants[i].total_score,
        twice.participants[i].total_score == before.participants[i].total_score + 2 * earned(
            before.participants[i],
            before.matches,
            before.wildcards,
        ),
{
    lemma_earned_by_sides(
        once.participants[i],
        before.participants[i],
        before.matches,
        before.wildcards,
        before.matches.len(),
    );
}

} // verus!
