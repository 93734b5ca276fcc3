//! Maintenance tasks, selected by the payload of the event that starts them.

use crate::text::str_equal;
use vstd::prelude::*;

verus! {

/// The payload that asks for the database migrations.
pub const MIGRATE: &'static str = "migrate";

/// What an event asks for.
#[derive(Clone, Copy, Debug, PartialEq, Eq, Structural)]
pub enum Task {
    /// Run the database migrations.
    Migrate,
    /// Nothing to do.
    Nothing,
}

/// The task that an event with the given payload asks for: the migrations for
/// the payload `migrate`, nothing for any other.
pub fn handler(payload: &str) -> (task: Task)
    ensures
        task == (if payload@ == MIGRATE@ {
            Task::Migrate
        } else {
            Task::Nothing
        }),
{
    if str_equal(payload, MIGRATE) {
        Task::Migrate
    } else {
        Task::Nothing
    }
}

} // verus!
