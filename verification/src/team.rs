//! The team record as the store hands it out.

use vstd::prelude::*;

verus! {

/// One team: its number, which identifies it, and its name.
#[derive(Clone, Debug, PartialEq)]
pub struct Model {
    /// The team number.
    pub number: i32,
    /// The team's name.
    pub name: String,
}

/// A team as a mathematical value.
pub struct TeamView {
    pub number: int,
    pub name: Seq<char>,
}

impl View for Model {
    type V = TeamView;

    open spec fn view(&self) -> TeamView {
        TeamView { number: self.number as int, name: self.name@ }
    }
}

/// The teams of `rows` as mathematical values, in the same order.
pub open spec fn team_views(rows: Seq<Model>) -> Seq<TeamView> {
    rows.map_values(|row: Model| row@)
}

impl Model {
    /// A team with the given number and name.
    pub fn new(number: i32, name: String) -> (team: Model)
        ensures
            team@ == (TeamView { number: number as int, name: name@ }),
    {
        Model { number, name }
    }
}

} // verus!
