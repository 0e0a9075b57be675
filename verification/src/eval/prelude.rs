//! Both accessor traits in one import.

pub use crate::eval::eval_option::EvalOption;
pub use crate::eval::eval_result::EvalResult;
