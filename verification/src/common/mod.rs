//! Pieces shared by every backend: the error type, the clock and the
//! cleaner.
pub mod cleanup;
pub mod error;
pub mod time;

pub use error::CuttlestoreError;
pub use time::get_system_time;
