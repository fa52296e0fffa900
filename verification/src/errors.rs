//! What a pool refuses.

use crate::teams_id::TeamId;
use vstd::prelude::*;

verus! {

/// A change to a pool that would break one of its rules.
#[derive(Debug, Clone, Copy, PartialEq, Eq)]
pub enum ValidationError {
    /// A team offered as a wildcard is one of some participant's sides.
    WildcardTeamOwned { team: TeamId },
}

} // verus!
