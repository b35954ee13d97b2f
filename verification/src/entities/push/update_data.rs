//! The form that changes the alerts of a push subscription.

use vstd::prelude::*;
use crate::entities::push::Alerts;

verus! {

/// The alerts of a subscription.
#[derive(Debug, Clone, Copy, PartialEq, Eq, Default, Structural)]
pub struct Data {
    pub alerts: Option<Alerts>,
}

/// The form.
#[derive(Debug, Clone, PartialEq, Eq, Default)]
pub struct Form {
    pub id: String,
    pub data: Data,
}

/// What a `Form` stands for.
pub struct FormModel {
    pub id: Seq<char>,
    pub data: Data,
}

impl View for Form {
    type V = FormModel;

    open spec fn view(&self) -> FormModel {
        FormModel { id: self.id@, data: self.data }
    }
}

} // verus!
