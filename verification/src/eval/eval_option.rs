//! `eval()` for the `Option<T>` type.

use vstd::prelude::*;
use vstd::string::to_string_from_display_ensures;

verus! {

/// The message reported when `eval()` meets `None`.
pub const EVAL_ON_NONE: &'static str = "called `Option::eval()` on a `None` value";

/// Whether `value` is what `eval()`, or `should()`, takes out of `held`.
pub open spec fn eval_yields<T>(held: Option<T>, value: T) -> bool {
    held == Some(value)
}

/// What `eval_or()` gives for `held` and the substitute `sub`.
pub open spec fn eval_or_value<T>(held: Option<T>, sub: T) -> T {
    match held {
        Some(v) => v,
        None => sub,
    }
}

/// Whether `value` may come out of `eval_or_default()` on `held`.
pub open spec fn eval_or_default_yields<T: Default>(held: Option<T>, value: T) -> bool {
    match held {
        Some(v) => value == v,
        None => call_ensures(T::default, (), value),
    }
}

/// Whether `eval_or_else()` may be called on `held` with the fallback `func`:
/// the fallback has to be callable only where there is no value.
pub open spec fn eval_or_else_accepts<T, F: FnOnce() -> T>(held: Option<T>, func: F) -> bool {
    held is None ==> func.requires(())
}

/// Whether `value` may come out of `eval_or_else()` on `held` with the
/// fallback `func`.
pub open spec fn eval_or_else_yields<T, F: FnOnce() -> T>(
    held: Option<T>,
    func: F,
    value: T,
) -> bool {
    match held {
        Some(v) => value == v,
        None => func.ensures((), value),
    }
}

/// Accessors that take the value out of an optional container.
pub trait EvalOption<T>: Sized {
    /// The optional value that the receiver holds.
    spec fn held(self) -> Option<T>;

    /// Drop-in for `unwrap()`: returns the held value. The receiver must hold
    /// one; [`eval_failure`] tells beforehand, with the message to report.
    fn eval(self) -> (value: T)
        requires
            self.held() is Some,
        ensures
            eval_yields(self.held(), value),
    ;

    /// Drop-in for `unwrap_or()`: returns the held value, or `sub` where
    /// there is none.
    fn eval_or(self, sub: T) -> (value: T)
        ensures
            value == eval_or_value(self.held(), sub),
    ;

    /// Drop-in for `unwrap_or_default()`: returns the held value, or the
    /// default of `T` where there is none.
    fn eval_or_default(self) -> (value: T) where T: Default
        ensures
            eval_or_default_yields(self.held(), value),
    ;

    /// Drop-in for `unwrap_or_else()`: returns the held value, or what `func`
    /// returns where there is none. `func` is not called where a value is held.
    fn eval_or_else<F>(self, func: F) -> (value: T) where F: FnOnce() -> T
        requires
            eval_or_else_accepts(self.held(), func),
        ensures
            eval_or_else_yields(self.held(), func, value),
    ;

    /// Drop-in for `expect()`: returns the held value. The receiver must hold
    /// one; [`should_failure`] tells beforehand, with `panic` as the message
    /// to report.
    fn should<M>(self, panic: M) -> (value: T) where M: std::fmt::Display
        requires
            self.held() is Some,
        ensures
            eval_yields(self.held(), value),
    ;
}

impl<T> EvalOption<T> for Option<T> {
    open spec fn held(self) -> Option<T> {
        self
    }

    fn eval(self) -> (value: T) {
        match self {
            Some(v) => v,
            None => unreached(),
        }
    }

    fn eval_or(self, sub: T) -> (value: T) {
        match self {
            Some(v) => v,
            None => sub,
        }
    }

    fn eval_or_default(self) -> (value: T) where T: Default {
        match self {
            Some(v) => v,
            None => T::default(),
        }
    }

    fn eval_or_else<F>(self, func: F) -> (value: T) where F: FnOnce() -> T {
        match self {
            Some(v) => v,
            None => func(),
        }
    }

    fn should<M>(self, panic: M) -> (value: T) where M: std::fmt::Display {
        match self {
            Some(v) => v,
            None => unreached(),
        }
    }
}

/// The message to report in place of `eval()` on `held`: none where a value
/// is held, the fixed text [`EVAL_ON_NONE`] where `held` is `None`.
pub fn eval_failure<T>(held: &Option<T>) -> (message: Option<String>)
    ensures
        message is Some <==> held is None,
        message matches Some(text) ==> text@ == EVAL_ON_NONE@,
{
    match held {
        Some(_) => None,
        None => Some(String::from_str(EVAL_ON_NONE)),
    }
}

/// The message to report in place of `should()` on `held`: none where a
/// value is held, the `Display` text of `panic` where `held` is `None`.
pub fn should_failure<T, M>(held: &Option<T>, panic: &M) -> (message: Option<String>) where
    M: std::fmt::Display,

    ensures
        message is Some <==> held is None,
        message matches Some(text) ==> to_string_from_display_ensures::<M>(panic, text),
{
    match held {
        Some(_) => None,
        None => Some(panic.to_string()),
    }
}

/// A value that is held comes out of every accessor unchanged, whatever the
/// substitute and the fallback; the fallback need not even be callable.
pub proof fn lemma_some_yields_value<T: Default, F: FnOnce() -> T>(
    v: T,
    sub: T,
    func: F,
    value: T,
)
    ensures
        eval_yields(Some(v), value) <==> value == v,
        eval_or_value(Some(v), sub) == v,
        eval_or_default_yields(Some(v), value) <==> value == v,
        eval_or_else_accepts(Some(v), func),
        eval_or_else_yields(Some(v), func, value) <==> value == v,
{
}

/// Where no value is held, each accessor gives its fallback: the substitute,
/// a default of `T`, or a result of the fallback function, which then has to
/// be callable. `eval()` and `should()` have nothing to give.
pub proof fn lemma_none_yields_fallback<T: Default, F: FnOnce() -> T>(sub: T, func: F, value: T)
    ensures
        !eval_yields(None::<T>, value),
        eval_or_value(None::<T>, sub) == sub,
        eval_or_default_yields(None::<T>, value) <==> call_ensures(T::default, (), value),
        eval_or_else_accepts(None::<T>, func) <==> func.requires(()),
        eval_or_else_yields(None::<T>, func, value) <==> func.ensures((), value),
{
}

} // verus!
