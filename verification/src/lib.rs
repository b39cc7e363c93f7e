//! Client core for a blob-indexing service: bearer tokens that are signed
//! locally, cached and refreshed before they expire, and the request and
//! response rules of the service's HTTP API.

pub mod encoding;
pub mod signer;
pub mod clock;
pub mod jwt_manager;
pub mod error;
pub mod request;
pub mod response;
pub mod client;
