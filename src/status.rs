//! The event status state machine as an explicit transition table.
use vstd::prelude::*;
use crate::types::EventStatus;

verus! {

/// The transitions an organizer may make: Draft to Published or Cancelled,
/// Published to Cancelled or Completed. Cancelled and Completed are terminal.
pub open spec fn allowed_transition(from: EventStatus, to: EventStatus) -> bool {
    match (from, to) {
        (EventStatus::Draft, EventStatus::Published) => true,
        (EventStatus::Draft, EventStatus::Cancelled) => true,
        (EventStatus::Published, EventStatus::Cancelled) => true,
        (EventStatus::Published, EventStatus::Completed) => true,
        _ => false,
    }
}

pub open spec fn is_terminal(s: EventStatus) -> bool {
    s == EventStatus::Cancelled || s == EventStatus::Completed
}

pub fn can_transition(from: EventStatus, to: EventStatus) -> (r: bool)
    ensures
        r == allowed_transition(from, to),
{
    match (from, to) {
        (EventStatus::Draft, EventStatus::Published) => true,
        (EventStatus::Draft, EventStatus::Cancelled) => true,
        (EventStatus::Published, EventStatus::Cancelled) => true,
        (EventStatus::Published, EventStatus::Completed) => true,
        _ => false,
    }
}

/// No transition leaves a terminal status.
pub proof fn lemma_terminal_is_final(from: EventStatus, to: EventStatus)
    requires
        is_terminal(from),
    ensures
        !allowed_transition(from, to),
{
}

} // verus!
