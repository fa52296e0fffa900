//! Leagues.

use crate::identity::is_random_uuid;
use crate::leagues_id::LeagueId;
use vstd::prelude::*;

verus! {

/// A league. Teams refer to it by its identifier.
pub struct League {
    pub id: LeagueId,
    name: String,
}

/// What a league holds.
pub struct LeagueView {
    pub id: LeagueId,
    pub name: Seq<char>,
}

impl View for League {
    type V = LeagueView;

    closed spec fn view(&self) -> LeagueView {
        LeagueView { id: self.id, name: self.name@ }
    }
}

impl League {
    /// A league with a fresh identifier.
    pub fn new(name: String) -> (league: Self)
        ensures
            league@.name == name@,
            is_random_uuid(league@.id@),
    {
        Self { id: LeagueId::new(), name }
    }

    /// The league's identifier.
    pub fn id(&self) -> (id: LeagueId)
        ensures
            id == self@.id,
    {
        self.id
    }

    /// The league's name.
    pub fn name(&self) -> (name: &String)
        ensures
            name@ == self@.name,
    {
        &self.name
    }
}

} // verus!
