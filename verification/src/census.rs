//! Vocabulary for describing the people of a generated population.

use vstd::prelude::*;

verus! {

/// What is known of one person. The home is the number of a building on the
/// map.
pub struct CensusPerson {
    pub home: usize,
    pub age: usize,
    pub employed: bool,
    pub owns_car: bool,
}

/// A coarse classification of a person, used to pick the shape of their day.
pub enum PersonType {
    Student,
    Worker,
}

/// The different things a person might do during the day.
#[derive(Hash, PartialEq, Eq, Clone, Copy, Debug)]
pub enum Activity {
    Breakfast,
    Lunch,
    Dinner,
    School,
    Entertainment,
    Errands,
    Financial,
    Healthcare,
    Home,
    Work,
}

} // verus!
