//! Requests that create a push subscription and that change its alerts.

use vstd::prelude::*;
use crate::entities::push::{add_subscription, update_data, Alerts};
use crate::errors::MastodonError;

verus! {

/// The key and the auth secret of a push subscription.
#[derive(Debug, Default, Clone, PartialEq, Eq)]
pub struct Keys {
    pub p256dh: String,
    pub auth: String,
}

impl Keys {
    /// The keys `p256dh` and `auth`.
    pub fn new(p256dh: &str, auth: &str) -> (r: Keys)
        ensures
            r.p256dh@ == p256dh@,
            r.auth@ == auth@,
    {
        Keys { p256dh: String::from_str(p256dh), auth: String::from_str(auth) }
    }
}

/// Collects what a new push subscription needs.
#[derive(Debug, Default, Clone, PartialEq, Eq)]
pub struct AddPushRequest {
    pub endpoint: String,
    pub p256dh: String,
    pub auth: String,
    pub follow: Option<bool>,
    pub favourite: Option<bool>,
    pub reblog: Option<bool>,
    pub mention: Option<bool>,
}

/// What an `AddPushRequest` stands for.
pub struct AddPushModel {
    pub endpoint: Seq<char>,
    pub p256dh: Seq<char>,
    pub auth: Seq<char>,
    pub follow: Option<bool>,
    pub favourite: Option<bool>,
    pub reblog: Option<bool>,
    pub mention: Option<bool>,
}

impl View for AddPushRequest {
    type V = AddPushModel;

    open spec fn view(&self) -> AddPushModel {
        AddPushModel {
            endpoint: self.endpoint@,
            p256dh: self.p256dh@,
            auth: self.auth@,
            follow: self.follow,
            favourite: self.favourite,
            reblog: self.reblog,
            mention: self.mention,
        }
    }
}

/// The alerts of four flags where one of them is set, and none where none is.
pub open spec fn alerts_of(
    follow: Option<bool>,
    favourite: Option<bool>,
    reblog: Option<bool>,
    mention: Option<bool>,
) -> Option<Alerts> {
    if follow is Some || favourite is Some || reblog is Some || mention is Some {
        Some(Alerts { follow, favourite, reblog, mention })
    } else {
        None
    }
}

impl AddPushRequest {
    /// A request for a subscription at `endpoint` with `keys`, with no alert
    /// chosen.
    pub fn new(endpoint: &str, keys: &Keys) -> (r: AddPushRequest)
        ensures
            r@ == (AddPushModel {
                endpoint: endpoint@,
                p256dh: keys.p256dh@,
                auth: keys.auth@,
                follow: None,
                favourite: None,
                reblog: None,
                mention: None,
            }),
    {
        AddPushRequest {
            endpoint: String::from_str(endpoint),
            p256dh: keys.p256dh.clone(),
            auth: keys.auth.clone(),
            follow: None,
            favourite: None,
            reblog: None,
            mention: None,
        }
    }

    /// Asks for follow notifications.
    pub fn follow(self) -> (r: Self)
        ensures
            r@ == (AddPushModel { follow: Some(true), ..self@ }),
    {
        let mut r = self;
        r.follow = Some(true);
        r
    }

    /// Asks for favourite notifications.
    pub fn favourite(self) -> (r: Self)
        ensures
            r@ == (AddPushModel { favourite: Some(true), ..self@ }),
    {
        let mut r = self;
        r.favourite = Some(true);
        r
    }

    /// Asks for reblog notifications.
    pub fn reblog(self) -> (r: Self)
        ensures
            r@ == (AddPushModel { reblog: Some(true), ..self@ }),
    {
        let mut r = self;
        r.reblog = Some(true);
        r
    }

    /// Asks for mention notifications.
    pub fn mention(self) -> (r: Self)
        ensures
            r@ == (AddPushModel { mention: Some(true), ..self@ }),
    {
        let mut r = self;
        r.mention = Some(true);
        r
    }

    /// Whether an alert was chosen.
    pub fn flags_present(&self) -> (r: bool)
        ensures
            r == (alerts_of(self.follow, self.favourite, self.reblog, self.mention) is Some),
    {
        self.follow.is_some() || self.favourite.is_some() || self.reblog.is_some()
            || self.mention.is_some()
    }

    /// The form that this request sends: the endpoint and the keys, and the
    /// alerts where one was chosen.
    pub fn build(&self) -> (r: Result<add_subscription::Form, MastodonError>)
        ensures
            r matches Ok(form) && form@ == (add_subscription::FormModel {
                endpoint: self.endpoint@,
                p256dh: self.p256dh@,
                auth: self.auth@,
                data: match alerts_of(self.follow, self.favourite, self.reblog, self.mention) {
                    Some(alerts) => Some(add_subscription::Data { alerts: Some(alerts) }),
                    None => None,
                },
            }),
    {
        let mut form = add_subscription::Form {
            subscription: add_subscription::Subscription {
                endpoint: self.endpoint.clone(),
                keys: add_subscription::Keys {
                    p256dh: self.p256dh.clone(),
                    auth: self.auth.clone(),
                },
            },
            data: None,
        };
        if self.flags_present() {
            let mut alerts = Alerts { follow: None, favourite: None, reblog: None, mention: None };
            if let Some(follow) = self.follow {
                alerts.follow = Some(follow);
            }
            if let Some(favourite) = self.favourite {
                alerts.favourite = Some(favourite);
            }
            if let Some(reblog) = self.reblog {
                alerts.reblog = Some(reblog);
            }
            if let Some(mention) = self.mention {
                alerts.mention = Some(mention);
            }
            form.data = Some(add_subscription::Data { alerts: Some(alerts) });
        }
        Ok(form)
    }
}

/// Collects the changes to the alerts of a push subscription.
#[derive(Debug, Default, Clone, PartialEq, Eq)]
pub struct UpdatePushRequest {
    pub id: String,
    pub follow: Option<bool>,
    pub favourite: Option<bool>,
    pub reblog: Option<bool>,
    pub mention: Option<bool>,
}

/// What an `UpdatePushRequest` stands for.
pub struct UpdatePushModel {
    pub id: Seq<char>,
    pub follow: Option<bool>,
    pub favourite: Option<bool>,
    pub reblog: Option<bool>,
    pub mention: Option<bool>,
}

impl View for UpdatePushRequest {
    type V = UpdatePushModel;

    open spec fn view(&self) -> UpdatePushModel {
        UpdatePushModel {
            id: self.id@,
            follow: self.follow,
            favourite: self.favourite,
            reblog: self.reblog,
            mention: self.mention,
        }
    }
}

impl UpdatePushRequest {
    /// A request about the subscription `id`, with no alert changed.
    pub fn new(id: &str) -> (r: UpdatePushRequest)
        ensures
            r@ == (UpdatePushModel {
                id: id@,
                follow: None,
                favourite: None,
                reblog: None,
                mention: None,
            }),
    {
        UpdatePushRequest {
            id: String::from_str(id),
            follow: None,
            favourite: None,
            reblog: None,
            mention: None,
        }
    }

    /// Turns follow notifications on or off.
    pub fn follow(self, follow: bool) -> (r: Self)
        ensures
            r@ == (UpdatePushModel { follow: Some(follow), ..self@ }),
    {
        let mut r = self;
        r.follow = Some(follow);
        r
    }

    /// Turns favourite notifications on or off.
    pub fn favourite(self, favourite: bool) -> (r: Self)
        ensures
            r@ == (UpdatePushModel { favourite: Some(favourite), ..self@ }),
    {
        let mut r = self;
        r.favourite = Some(favourite);
        r
    }

    /// Turns reblog notifications on or off.
    pub fn reblog(self, reblog: bool) -> (r: Self)
        ensures
            r@ == (UpdatePushModel { reblog: Some(reblog), ..self@ }),
    {
        let mut r = self;
        r.reblog = Some(reblog);
        r
    }

    /// Turns mention notifications on or off.
    pub fn mention(self, mention: bool) -> (r: Self)
        ensures
            r@ == (UpdatePushModel { mention: Some(mention), ..self@ }),
    {
        let mut r = self;
        r.mention = Some(mention);
        r
    }

    /// Whether an alert was changed.
    pub fn flags_present(&self) -> (r: bool)
        ensures
            r == (alerts_of(self.follow, self.favourite, self.reblog, self.mention) is Some),
    {
        self.follow.is_some() || self.favourite.is_some() || self.reblog.is_some()
            || self.mention.is_some()
    }

    /// The form that this request sends: the id, and the alerts where one was
    /// changed.
    pub fn build(&self) -> (r: update_data::Form)
        ensures
            r@ == (update_data::FormModel {
                id: self.id@,
                data: update_data::Data {
                    alerts: alerts_of(self.follow, self.favourite, self.reblog, self.mention),
                },
            }),
    {
        let mut form = update_data::Form {
            id: self.id.clone(),
            data: update_data::Data { alerts: None },
        };
        if self.flags_present() {
            let mut alerts = Alerts { follow: None, favourite: None, reblog: None, mention: None };
            if let Some(follow) = self.follow {
                alerts.follow = Some(follow);
            }
            if let Some(favourite) = self.favourite {
                alerts.favourite = Some(favourite);
            }
            if let Some(reblog) = self.reblog {
                alerts.reblog = Some(reblog);
            }
            if let Some(mention) = self.mention {
                alerts.mention = Some(mention);
            }
            form.data = update_data::Data { alerts: Some(alerts) };
        }
        form
    }
}

} // verus!
