//! The text of severity-tagged console lines.

pub mod fatal;
pub mod layout;
pub mod line;
pub mod severity;
