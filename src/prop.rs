//! The settable properties of a task.

use crate::id::Id;
use crate::recur::Recur;
use vstd::prelude::*;

verus! {

/// A point in time, in whole seconds since the Unix epoch (UTC).
pub type Timestamp = i64;

/// One settable field of a task, with its new value; `None` clears the
/// optional fields.
#[derive(Debug, Clone)]
pub enum Prop {
    Description(String),
    Blocked(Option<Id>),
    Done(Timestamp),
    Due(Option<Timestamp>),
    Recur(Option<Recur>),
    Snooze(Option<Timestamp>),
    Wait(Option<Timestamp>),
}

} // verus!
