//! A value kept fresh by re-fetching it now and then, without ever blocking
//! the caller that polls it.
//!
//! The cache decides, on each poll, whether to start a fetch, and takes in
//! the outcome of the fetch in flight when the caller has seen it resolve.
//! Starting fetches, waiting on them and decoding what they return is left to
//! the caller: each poll is handed the current time and what the fetch in
//! flight showed, and answers with the cached value and the one thing the
//! caller must do next.
mod fetch_value;
pub mod laws;
pub mod model;

pub use fetch_value::{is_default, FetchValue};
pub use model::{Effect, FetchModel, Observed};
