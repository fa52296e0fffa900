//! A tipping pool (a *penca*): participants own two teams each, and a pass over
//! the pool's matches adds to every participant's running total the points that
//! the played club matches earn them.
//!
//! - [`scoring_rules`] is the fixed table from a classified outcome to points.
//! - [`aggregation`] says what a pass earns a participant, and proves what
//!   follows from that.
//! - [`pencas`] is the pool itself: its participants, wildcard teams and
//!   matches, the pass ([`pencas::Penca::update`]) and the laws of a pass.
//! - [`participants`], [`teams`], [`leagues`], [`player`], [`matches`] and
//!   [`predictions`] are the records, each identified by a random UUID
//!   ([`identity`]).
//! - [`match_repository`] is the interface of a store of matches.

pub mod aggregation;
pub mod errors;
pub mod identity;
pub mod leagues;
pub mod leagues_id;
pub mod match_repository;
pub mod matches;
pub mod matches_id;
pub mod participant_id;
pub mod participants;
pub mod pencas;
pub mod player;
pub mod player_id;
pub mod predictions;
pub mod scoring_rules;
pub mod teams;
pub mod teams_id;
