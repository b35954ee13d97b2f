//! The alerts of a push subscription, and the forms that create a
//! subscription and change its alerts.

use vstd::prelude::*;

pub mod add_subscription;
pub mod update_data;

verus! {

/// Which events a push subscription is told of.
#[derive(Debug, Clone, Copy, PartialEq, Eq, Default, Structural)]
pub struct Alerts {
    /// A follow.
    pub follow: Option<bool>,
    /// A favourite.
    pub favourite: Option<bool>,
    /// A reblog.
    pub reblog: Option<bool>,
    /// A mention.
    pub mention: Option<bool>,
}

} // verus!
