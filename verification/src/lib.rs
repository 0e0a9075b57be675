//! Accessors for optional and fallible values, and the text of severity-tagged
//! console lines.
//!
//! - [`eval`]: `eval()` as a drop-in for `unwrap()`, with its companions, on
//!   `Option<T>` and `Result<T, E>`.
//! - [`output`]: what the reporter writes for a message at each severity, and
//!   how a fatal report ends execution.

pub mod eval;
pub mod output;
pub mod prelude;
pub mod result;
