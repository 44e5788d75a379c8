//! Client-side protocol engine for the AMS/ADS automation protocol: the binary
//! wire codec, the error taxonomy, batch ("sumup") packing, the symbol handle
//! cache and the dispatch tables of a session.
pub mod wire;
pub mod error;
pub mod address;
pub mod types;
pub mod request;
pub mod notification;
pub mod response;
pub mod header;
pub mod sumup;
pub mod session;
pub mod client;
