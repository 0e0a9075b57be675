//! The short form of the accessors on `Result<T, E>`.

pub mod eval;
