//! Identity of a player.

use crate::identity::{fresh_uuid_bits, is_random_uuid};
use vstd::prelude::*;

verus! {

/// Identifies one player. Two identifiers can be compared for equality and for
/// nothing else; each holds the 128-bit value of a random UUID.
#[derive(Debug, Clone, Copy, PartialEq, Eq, Structural)]
pub struct PlayerId(u128);

impl View for PlayerId {
    type V = u128;

    closed spec fn view(&self) -> u128 {
        self.0
    }
}

impl PlayerId {
    /// A fresh identifier.
    pub fn new() -> (id: Self)
        ensures
            is_random_uuid(id@),
    {
        Self(fresh_uuid_bits())
    }

    /// The identifier's value as one number.
    pub fn as_u128(&self) -> (bits: u128)
        ensures
            bits == self@,
    {
        self.0
    }
}

} // verus!
