//! The events of the streaming API.

use vstd::prelude::*;

verus! {

/// An event of the streaming API. `S` is a status and `N` a notification, as
/// the caller decodes them.
#[derive(Clone, Debug, PartialEq, Eq)]
pub enum Event<S, N> {
    /// A status was posted.
    Update(S),
    /// A notification arrived.
    Notification(N),
    /// A status was deleted; the text is its id.
    Delete(String),
    /// The filters of the user changed.
    FiltersChanged,
}

/// What an `Event` stands for.
pub enum EventModel<S, N> {
    Update(S),
    Notification(N),
    Delete(Seq<char>),
    FiltersChanged,
}

impl<S, N> View for Event<S, N> {
    type V = EventModel<S, N>;

    open spec fn view(&self) -> EventModel<S, N> {
        match self {
            Event::Update(s) => EventModel::Update(*s),
            Event::Notification(n) => EventModel::Notification(*n),
            Event::Delete(id) => EventModel::Delete(id@),
            Event::FiltersChanged => EventModel::FiltersChanged,
        }
    }
}

} // verus!
