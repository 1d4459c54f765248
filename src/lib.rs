//! Session and inventory logic for a network-controller command-line client:
//! credential caching and renewal, local password checks, the persisted
//! store's operations, and the paginated device fetch.

pub mod config;
pub mod device;
pub mod fetch;
pub mod password;
pub mod session;
pub mod store;
pub mod token;
