//! A read-through cache for setlist records: records are served from a
//! persistent store when present, fetched from an upstream service when
//! absent, and written back so that later requests find them in the store.

pub mod record;
pub mod upstream;
pub mod reconcile;
pub mod store;
pub mod request;
pub mod laws;
