//! `eval()` and `eval_or()` alone, for code that needs no more of
//! `Result<T, E>`.

use vstd::prelude::*;
use crate::eval::eval_result::{eval_or_value, eval_yields};

verus! {

/// The two plain accessors of a fallible container.
pub trait Eval<T, E>: Sized {
    /// The result that the receiver holds.
    spec fn held(self) -> Result<T, E>;

    /// Drop-in for `unwrap()`: returns the success value. The receiver must
    /// hold one.
    fn eval(self) -> (value: T)
        requires
            self.held() is Ok,
        ensures
            eval_yields(self.held(), value),
    ;

    /// Drop-in for `unwrap_or()`: returns the success value, or `sub` where
    /// an error is held.
    fn eval_or(self, sub: T) -> (value: T) where E: std::fmt::Debug
        ensures
            value == eval_or_value(self.held(), sub),
    ;
}

impl<T, E: std::fmt::Debug> Eval<T, E> for Result<T, E> {
    open spec fn held(self) -> Result<T, E> {
        self
    }

    fn eval(self) -> (value: T) {
        match self {
            Ok(v) => v,
            Err(_) => unreached(),
        }
    }

    fn eval_or(self, sub: T) -> (value: T) {
        match self {
            Ok(v) => v,
            Err(_) => sub,
        }
    }
}

} // verus!
