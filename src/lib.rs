//! Local persistence models and the offline-first change-tracking layer of an
//! API-request workbench: a bounded, deduplicating queue of pending changes,
//! conflict records and their resolution policy, and sync sessions.

pub mod base;
pub mod collection;
pub mod environment;
pub mod postman;
pub mod request;
pub mod response;
pub mod store;
pub mod sync;
pub mod user;
