//! What a caller sends to ask for an operation.

use vstd::prelude::*;

verus! {

/// Asks for the activity `name` to be started.
#[derive(Debug, Clone, PartialEq, Eq)]
pub struct StartJson {
    pub name: String,
}

/// Asks for the report on the calendar date `date`.
#[derive(Debug, Clone, PartialEq, Eq)]
pub struct ActivityDate {
    pub date: String,
}

} // verus!
