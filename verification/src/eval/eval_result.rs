//! `eval()` for the `Result<T, E>` type.

use vstd::prelude::*;
use vstd::string::to_string_from_display_ensures;
use crate::eval::eval_option;

verus! {

/// Whether `value` is what `eval()`, or `should()`, takes out of `held`.
pub open spec fn eval_yields<T, E>(held: Result<T, E>, value: T) -> bool {
    held == Ok::<T, E>(value)
}

/// What `eval_or()` gives for `held` and the substitute `sub`.
pub open spec fn eval_or_value<T, E>(held: Result<T, E>, sub: T) -> T {
    match held {
        Ok(v) => v,
        Err(_) => sub,
    }
}

/// Whether `value` may come out of `eval_or_default()` on `held`.
pub open spec fn eval_or_default_yields<T: Default, E>(held: Result<T, E>, value: T) -> bool {
    match held {
        Ok(v) => value == v,
        Err(_) => call_ensures(T::default, (), value),
    }
}

/// Whether `eval_or_else()` may be called on `held` with the fallback `func`:
/// the fallback has to accept the error that is held, and nothing else.
pub open spec fn eval_or_else_accepts<T, E, F: FnOnce(E) -> T>(held: Result<T, E>, func: F) -> bool {
    match held {
        Ok(_) => true,
        Err(e) => func.requires((e,)),
    }
}

/// Whether `value` may come out of `eval_or_else()` on `held` with the
/// fallback `func`: the fallback is given the very error that is held.
pub open spec fn eval_or_else_yields<T, E, F: FnOnce(E) -> T>(
    held: Result<T, E>,
    func: F,
    value: T,
) -> bool {
    match held {
        Ok(v) => value == v,
        Err(e) => func.ensures((e,), value),
    }
}

/// Accessors that take the success value out of a fallible container.
pub trait EvalResult<T, E>: Sized {
    /// The result that the receiver holds.
    spec fn held(self) -> Result<T, E>;

    /// Drop-in for `unwrap()`: returns the success value. The receiver must
    /// hold one; [`eval_failure`] tells beforehand, with the message to report.
    fn eval(self) -> (value: T) where E: std::fmt::Debug
        requires
            self.held() is Ok,
        ensures
            eval_yields(self.held(), value),
    ;

    /// Drop-in for `unwrap_or()`: returns the success value, or `sub` where
    /// an error is held.
    fn eval_or(self, sub: T) -> (value: T)
        ensures
            value == eval_or_value(self.held(), sub),
    ;

    /// Drop-in for `unwrap_or_default()`: returns the success value, or the
    /// default of `T` where an error is held.
    fn eval_or_default(self) -> (value: T) where T: Default
        ensures
            eval_or_default_yields(self.held(), value),
    ;

    /// Drop-in for `unwrap_or_else()`: returns the success value, or what
    /// `func` returns for the error that is held. `func` is not called where
    /// a success value is held.
    fn eval_or_else<F>(self, func: F) -> (value: T) where F: FnOnce(E) -> T
        requires
            eval_or_else_accepts(self.held(), func),
        ensures
            eval_or_else_yields(self.held(), func, value),
    ;

    /// Drop-in for `expect()`: returns the success value. The receiver must
    /// hold one; [`should_failure`] tells beforehand, with the message to
    /// report.
    fn should<M>(self, panic: M) -> (value: T) where M: std::fmt::Display
        requires
            self.held() is Ok,
        ensures
            eval_yields(self.held(), value),
    ;
}

impl<T, E: std::fmt::Debug> EvalResult<T, E> for Result<T, E> {
    open spec fn held(self) -> Result<T, E> {
        self
    }

    fn eval(self) -> (value: T) where E: std::fmt::Debug {
        match self {
            Ok(v) => v,
            Err(_) => unreached(),
        }
    }

    fn eval_or(self, sub: T) -> (value: T) {
        match self {
            Ok(v) => v,
            Err(_) => sub,
        }
    }

    fn eval_or_default(self) -> (value: T) where T: Default {
        match self {
            Ok(v) => v,
            Err(_) => T::default(),
        }
    }

    fn eval_or_else<F>(self, func: F) -> (value: T) where F: FnOnce(E) -> T {
        match self {
            Ok(v) => v,
            Err(e) => func(e),
        }
    }

    fn should<M>(self, panic: M) -> (value: T) where M: std::fmt::Display {
        match self {
            Ok(v) => v,
            Err(_) => unreached(),
        }
    }
}

/// `format!` with `{:?}`: the text that the `Debug` impl of `E` writes for
/// `err`. The characters are the impl's own choice, so the wrapper has no
/// `ensures`; [`debug_text_yields`] relates a text to the call that gave it.
#[verifier::external_body]
fn debug_text<E: std::fmt::Debug>(err: &E) -> (text: String) {
    format!("{:?}", err)
}

/// Whether `text` is a `Debug` rendering of `err`: what `format!` with `{:?}`
/// may give for it. Only a call of the rendering establishes this; which
/// characters the text holds is left to the `Debug` impl of `E`.
pub closed spec fn debug_text_yields<E: std::fmt::Debug>(err: &E, text: String) -> bool {
    call_ensures(debug_text::<E>, (err,), text)
}

/// The message to report in place of `eval()` on `held`: none where a
/// success value is held, a `Debug` rendering of the held error otherwise.
pub fn eval_failure<T, E: std::fmt::Debug>(held: &Result<T, E>) -> (message: Option<String>)
    ensures
        message is Some <==> held is Err,
        match (*held, message) {
            (Err(e), Some(text)) => debug_text_yields::<E>(&e, text),
            _ => true,
        },
{
    match held {
        Ok(_) => None,
        Err(e) => Some(debug_text(e)),
    }
}

/// The message to report in place of `should()` on `held`: none where a
/// success value is held, the `Display` text of `panic` where an error is
/// held. The error itself is no part of it.
pub fn should_failure<T, E, M>(held: &Result<T, E>, panic: &M) -> (message: Option<String>) where
    M: std::fmt::Display,

    ensures
        message is Some <==> held is Err,
        message matches Some(text) ==> to_string_from_display_ensures::<M>(panic, text),
{
    match held {
        Ok(_) => None,
        Err(_) => Some(panic.to_string()),
    }
}

/// On `Ok(v)` each accessor gives what the accessor of the same name on
/// `Option` gives on `Some(v)`: the value `v`, with no demand on the fallback.
pub proof fn lemma_ok_as_some<T: Default, E, F: FnOnce(E) -> T, G: FnOnce() -> T>(
    v: T,
    sub: T,
    func: F,
    func_of_none: G,
    value: T,
)
    ensures
        eval_yields(Ok::<T, E>(v), value) == eval_option::eval_yields(Some(v), value),
        eval_or_value(Ok::<T, E>(v), sub) == eval_option::eval_or_value(Some(v), sub),
        eval_or_default_yields(Ok::<T, E>(v), value) == eval_option::eval_or_default_yields(
            Some(v),
            value,
        ),
        eval_or_else_accepts(Ok::<T, E>(v), func) == eval_option::eval_or_else_accepts(
            Some(v),
            func_of_none,
        ),
        eval_or_else_yields(Ok::<T, E>(v), func, value) == eval_option::eval_or_else_yields(
            Some(v),
            func_of_none,
            value,
        ),
{
}

/// On `Ok(v)` every accessor gives `v`.
pub proof fn lemma_ok_yields_value<T: Default, E, F: FnOnce(E) -> T>(
    v: T,
    sub: T,
    func: F,
    value: T,
)
    ensures
        eval_yields(Ok::<T, E>(v), value) <==> value == v,
        eval_or_value(Ok::<T, E>(v), sub) == v,
        eval_or_default_yields(Ok::<T, E>(v), value) <==> value == v,
        eval_or_else_accepts(Ok::<T, E>(v), func),
        eval_or_else_yields(Ok::<T, E>(v), func, value) <==> value == v,
{
}

/// On `Err(e)` each accessor gives its fallback, and the fallback function
/// is given `e` itself. `eval()` and `should()` have nothing to give.
pub proof fn lemma_err_yields_fallback<T: Default, E, F: FnOnce(E) -> T>(
    e: E,
    sub: T,
    func: F,
    value: T,
)
    ensures
        !eval_yields(Err::<T, E>(e), value),
        eval_or_value(Err::<T, E>(e), sub) == sub,
        eval_or_default_yields(Err::<T, E>(e), value) <==> call_ensures(T::default, (), value),
        eval_or_else_accepts(Err::<T, E>(e), func) <==> func.requires((e,)),
        eval_or_else_yields(Err::<T, E>(e), func, value) <==> func.ensures((e,), value),
{
}

} // verus!
