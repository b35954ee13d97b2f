//! Client-side logic for the API of a federated social network: cursor-based
//! pagination over `Link` headers, the streaming event protocol, OAuth scopes,
//! the URLs of the API and the builders of its requests.
//!
//! The library computes and decides; it neither sends a request nor opens a
//! socket. A caller fetches what a [`page::Page`] asks for and hands the
//! response in, and feeds the lines of a stream to a
//! [`streaming::EventReader`].

pub mod apps;
pub mod data;
pub mod entities;
pub mod errors;
pub mod json;
pub mod link_header;
pub mod page;
pub mod query;
pub mod registration;
pub mod requests;
pub mod response;
pub mod routes;
pub mod scopes;
pub mod status_builder;
pub mod streaming;
pub mod text;
pub mod urls;

pub use crate::data::Data;
pub use crate::errors::{ApiError, MastodonError};
pub use crate::registration::Registration;
pub use crate::requests::{
    AddFilterRequest, AddPushRequest, StatusesRequest, UpdateCredsRequest, UpdatePushRequest,
};
pub use crate::status_builder::{NewStatus, StatusBuilder};
