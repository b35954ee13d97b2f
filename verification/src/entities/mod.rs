//! The values that the API takes and sends, as far as the library reads them.

pub mod account;
pub mod event;
pub mod filter;
pub mod push;
