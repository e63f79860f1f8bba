//! Request engine of a client for the Zotero web API: request descriptors,
//! rate-limit retries, response decoding and batched iteration, without the
//! network calls themselves.

pub mod address;
pub mod batch;
pub mod client;
pub mod decode;
pub mod errors;
pub mod headers;
pub mod retry;
pub mod text;

pub use batch::{ZoteroBatchError, ZoteroItemsBatcher};
pub use client::Zotero;
pub use errors::ZoteroError;
