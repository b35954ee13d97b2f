//! The builders of the requests that take more than an id.

pub mod directory;
pub mod filter;
pub mod push;
pub mod statuses;
pub mod update_credentials;

pub use self::directory::DirectoryRequest;
pub use self::filter::AddFilterRequest;
pub use self::push::{AddPushRequest, Keys, UpdatePushRequest};
pub use self::statuses::StatusesRequest;
pub use self::update_credentials::UpdateCredsRequest;
