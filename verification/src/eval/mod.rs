//! `eval()` and its companions on `Option<T>` and `Result<T, E>`.

pub mod eval_option;
pub mod eval_result;
pub mod prelude;
