//! A uniform key-value store over interchangeable storage backends.
//!
//! A store is opened from a connection string, which selects the backend.
//! Every backend offers the same four operations (`put`, `get`, `delete`,
//! `scan`) and honours an optional time-to-live on each value. Several
//! stores can share one backend: each store prefixes its keys with its own
//! namespace, and never sees the keys of another.
//!
//! The crate holds the rules of that design and proves them: how a
//! connection string selects a backend, how a value is wrapped together with
//! its expiry, when a wrapped value counts as expired or corrupt, how keys are
//! namespaced, and what the background cleaner does next. The in-process
//! backend is complete here; backends that perform I/O are driven by the
//! embedding program, which asks this crate for every decision.
pub mod api;
pub mod backend_api;
pub mod backends;
pub mod builder;
pub mod common;
pub mod envelope;
pub mod namespace;
pub mod text;

pub use api::Cuttlestore;
pub use backend_api::{CuttleBackend, PutOptions};
pub use builder::{CuttleConnection, CuttlestoreBuilder};
pub use common::CuttlestoreError;
