//! Where matches are kept between runs.

use crate::matches::Match;
use crate::matches_id::MatchId;
use vstd::prelude::*;

verus! {

/// A store of matches, implemented by whoever keeps them. A pool never calls
/// it: it works on the matches added to it.
///
/// Nothing is promised of an implementation. A failure of the store comes
/// back as `Err` with a message.
pub trait MatchRepository {
    /// Looks a match up: `Ok(None)` where the store holds none under `id`.
    fn get_by_id(&self, id: &MatchId) -> Result<Option<Match>, String>;

    /// Stores a match.
    fn save(&mut self, game_match: Match) -> Result<(), String>;
}

} // verus!
