//! Filters: phrases that hide statuses.

use vstd::prelude::*;

verus! {

/// Where a filter applies.
#[derive(Clone, Copy, Debug, PartialEq, Eq, Structural)]
pub enum FilterContext {
    /// The home timeline.
    Home,
    /// The notifications.
    Notifications,
    /// The public timelines.
    Public,
    /// The expanded thread of a status.
    Thread,
}

} // verus!
