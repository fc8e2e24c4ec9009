//! The records of the lists that come in and of the reports that go out.

use vstd::prelude::*;
use crate::models::shared::Priority;

verus! {

/// A film of a film list, to insert into the store.
#[derive(Debug, PartialEq, Eq)]
pub struct FilmInput {
    pub code: String,
    pub group: i32,
    pub priority: Priority,
}

/// A student of a class list, to insert into the store.
#[derive(Debug, PartialEq, Eq)]
pub struct StudentInput {
    pub class: String,
    pub group: i32,
    pub first: String,
    pub last: String,
}

/// A student in a report. `ae`, `sound`, `editor` and `finish` are the names
/// of the films the student did those roles on, empty where none.
#[derive(Debug, PartialEq, Eq)]
pub struct StudentOutput {
    pub class: String,
    pub group: i32,
    pub first: String,
    pub last: String,
    pub ae: String,
    pub sound: String,
    pub editor: String,
    pub finish: String,
}

/// A film in a report. `ae`, `sound`, `editor` and `finish` are the names of
/// the students who did those roles, empty where none.
#[derive(Debug, PartialEq, Eq)]
pub struct FilmOutput {
    pub code: String,
    pub group: i32,
    pub priority: Priority,
    pub ae: String,
    pub sound: String,
    pub editor: String,
    pub finish: String,
}

} // verus!
