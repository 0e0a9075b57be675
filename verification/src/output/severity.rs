//! The three severities, and the tag that opens a line of each.

use vstd::prelude::*;

verus! {

/// Ends the styling of a tag.
pub const RESET: &'static str = "\x1b[0m";

/// Styles the name of the execution unit.
pub const UNIT_STYLE: &'static str = "\x1b[0;36m";

/// Stands for an execution unit that has no name.
pub const UNKNOWN_UNIT: &'static str = "<unknown>";

/// How grave a message is.
#[derive(Clone, Copy, Debug, PartialEq, Eq, Structural)]
pub enum Severity {
    /// Noncritical information.
    Info,
    /// Advice that asks for attention.
    Warn,
    /// A fault after which execution ends.
    Error,
}

impl Severity {
    /// The word that names the severity.
    pub open spec fn label_text(self) -> Seq<char> {
        match self {
            Severity::Info => "info"@,
            Severity::Warn => "warn"@,
            Severity::Error => "error"@,
        }
    }

    /// The terminal styling of the label: bold, in blue, yellow or red.
    pub open spec fn style_text(self) -> Seq<char> {
        match self {
            Severity::Info => "\x1b[0;1;34m"@,
            Severity::Warn => "\x1b[0;1;33m"@,
            Severity::Error => "\x1b[0;1;31m"@,
        }
    }

    /// The blanks between the label and the unit's name, which bring the
    /// names of all severities into one column.
    pub open spec fn gap_text(self) -> Seq<char> {
        match self {
            Severity::Info => "  "@,
            Severity::Warn => "  "@,
            Severity::Error => " "@,
        }
    }

    /// The word that names the severity.
    pub fn label(self) -> (text: &'static str)
        ensures
            text@ == self.label_text(),
    {
        match self {
            Severity::Info => "info",
            Severity::Warn => "warn",
            Severity::Error => "error",
        }
    }

    /// The terminal styling of the label.
    pub fn style(self) -> (text: &'static str)
        ensures
            text@ == self.style_text(),
    {
        match self {
            Severity::Info => "\x1b[0;1;34m",
            Severity::Warn => "\x1b[0;1;33m",
            Severity::Error => "\x1b[0;1;31m",
        }
    }

    /// The blanks between the label and the unit's name.
    pub fn gap(self) -> (text: &'static str)
        ensures
            text@ == self.gap_text(),
    {
        match self {
            Severity::Info => "  ",
            Severity::Warn => "  ",
            Severity::Error => " ",
        }
    }
}

} // verus!
