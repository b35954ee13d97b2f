//! The form that creates a push subscription.

use vstd::prelude::*;
use crate::entities::push::Alerts;

verus! {

/// The form.
#[derive(Debug, Clone, PartialEq, Eq, Default)]
pub struct Form {
    pub subscription: Subscription,
    pub data: Option<Data>,
}

/// Where to push, and with which keys.
#[derive(Debug, Clone, PartialEq, Eq, Default)]
pub struct Subscription {
    pub endpoint: String,
    pub keys: Keys,
}

/// The keys of a subscription.
#[derive(Debug, Clone, PartialEq, Eq, Default)]
pub struct Keys {
    pub p256dh: String,
    pub auth: String,
}

/// The alerts of a subscription.
#[derive(Debug, Clone, Copy, PartialEq, Eq, Default, Structural)]
pub struct Data {
    pub alerts: Option<Alerts>,
}

/// What a `Form` stands for.
pub struct FormModel {
    pub endpoint: Seq<char>,
    pub p256dh: Seq<char>,
    pub auth: Seq<char>,
    pub data: Option<Data>,
}

impl View for Form {
    type V = FormModel;

    open spec fn view(&self) -> FormModel {
        FormModel {
            endpoint: self.subscription.endpoint@,
            p256dh: self.subscription.keys.p256dh@,
            auth: self.subscription.keys.auth@,
            data: self.data,
        }
    }
}

} // verus!
