//! What a client keeps of an instance and of its authorization.

use vstd::prelude::*;

verus! {

/// The data of an authorized client. Keeping it spares the next run the
/// authorization.
#[derive(Clone, Debug, PartialEq, Eq)]
pub struct Data {
    /// Base url of the instance, such as `https://mastodon.social`.
    pub base: String,
    /// The id that the instance gave the client.
    pub client_id: String,
    /// The secret that the instance gave the client.
    pub client_secret: String,
    /// Where the instance sends the user back to after the signup.
    pub redirect: String,
    /// The access token of the client.
    pub token: String,
}

} // verus!
