//! The text that the reporter writes for a message.

use vstd::prelude::*;
use crate::output::layout::{line_feeds, prefix_lines, prefixed};
use crate::output::severity::{Severity, RESET, UNIT_STYLE, UNKNOWN_UNIT};

verus! {

/// The name shown for an execution unit: its own where it has one, else
/// [`UNKNOWN_UNIT`].
pub open spec fn unit_text(unit: Option<Seq<char>>) -> Seq<char> {
    match unit {
        Some(name) => name,
        None => UNKNOWN_UNIT@,
    }
}

/// The tag of a line without a unit: the styled label, the reset and a blank.
pub open spec fn tag_text(severity: Severity) -> Seq<char> {
    severity.style_text() + severity.label_text() + RESET@ + " "@
}

/// The tag of a line that names its unit: the styled label, the gap, the
/// unit's name in brackets with a colon, the reset and a blank.
pub open spec fn named_tag_text(severity: Severity, unit: Option<Seq<char>>) -> Seq<char> {
    severity.style_text() + severity.label_text() + UNIT_STYLE@ + severity.gap_text() + "["@
        + unit_text(unit) + "]:"@ + RESET@ + " "@
}

/// What is written for `message`: each of its lines behind the tag.
pub open spec fn report_text(severity: Severity, message: Seq<char>) -> Seq<char> {
    prefixed(tag_text(severity), message)
}

/// What is written for `message` by the unit `unit`: each of its lines
/// behind the tag that names the unit.
pub open spec fn named_report_text(
    severity: Severity,
    unit: Option<Seq<char>>,
    message: Seq<char>,
) -> Seq<char> {
    prefixed(named_tag_text(severity, unit), message)
}

/// The view of an optional name.
pub open spec fn unit_view(unit: Option<&str>) -> Option<Seq<char>> {
    match unit {
        Some(name) => Some(name@),
        None => None,
    }
}

/// The name shown for an execution unit.
pub fn unit_name<'a>(unit: Option<&'a str>) -> (name: &'a str)
    ensures
        name@ == unit_text(unit_view(unit)),
{
    match unit {
        Some(name) => name,
        None => UNKNOWN_UNIT,
    }
}

/// The tag of a line without a unit.
pub fn tag(severity: Severity) -> (text: String)
    ensures
        text@ == tag_text(severity),
{
    let mut text = String::from_str(severity.style());
    text.append(severity.label());
    text.append(RESET);
    text.append(" ");
    text
}

/// The tag of a line that names its unit.
pub fn named_tag(severity: Severity, unit: Option<&str>) -> (text: String)
    ensures
        text@ == named_tag_text(severity, unit_view(unit)),
{
    let mut text = String::from_str(severity.style());
    text.append(severity.label());
    text.append(UNIT_STYLE);
    text.append(severity.gap());
    text.append("[");
    text.append(unit_name(unit));
    text.append("]:");
    text.append(RESET);
    text.append(" ");
    text
}

/// The text to write for `message` at `severity`.
pub fn report(severity: Severity, message: &str) -> (text: String)
    ensures
        text@ == report_text(severity, message@),
{
    let head = tag(severity);
    prefix_lines(head.as_str(), message)
}

/// The text to write for `message` at `severity` by the unit `unit`.
pub fn named_report(severity: Severity, unit: Option<&str>, message: &str) -> (text: String)
    ensures
        text@ == named_report_text(severity, unit_view(unit), message@),
{
    let head = named_tag(severity, unit);
    prefix_lines(head.as_str(), message)
}

/// The labels and stylings of two severities differ, so their lines can be
/// told apart.
pub proof fn lemma_severities_differ(one: Severity, other: Severity)
    requires
        one != other,
    ensures
        one.label_text() != other.label_text(),
        one.style_text() != other.style_text(),
{
    reveal_strlit("info");
    reveal_strlit("warn");
    reveal_strlit("error");
    reveal_strlit("\x1b[0;1;34m");
    reveal_strlit("\x1b[0;1;33m");
    reveal_strlit("\x1b[0;1;31m");
    assert("info"@[0] == 'i' && "warn"@[0] == 'w' && "error"@[0] == 'e');
    assert("\x1b[0;1;34m"@[7] == '4' && "\x1b[0;1;33m"@[7] == '3' && "\x1b[0;1;31m"@[7] == '1');
}

/// Label and gap together are six characters wide whatever the severity, so
/// the units' names stand in one column.
pub proof fn lemma_names_line_up(severity: Severity)
    ensures
        severity.label_text().len() + severity.gap_text().len() == 6,
{
    reveal_strlit("info");
    reveal_strlit("warn");
    reveal_strlit("error");
    reveal_strlit("  ");
    reveal_strlit(" ");
}

/// No tag without a unit holds a line feed.
pub proof fn lemma_tag_is_one_line(severity: Severity)
    ensures
        line_feeds(tag_text(severity)) == 0,
{
    reveal_strlit("info");
    reveal_strlit("warn");
    reveal_strlit("error");
    reveal_strlit("\x1b[0;1;34m");
    reveal_strlit("\x1b[0;1;33m");
    reveal_strlit("\x1b[0;1;31m");
    reveal_strlit("\x1b[0m");
    reveal_strlit(" ");
    reveal_with_fuel(line_feeds, 20);
}

/// A message of one line is written as the tag followed by the message.
pub proof fn lemma_report_of_one_line(severity: Severity, message: Seq<char>)
    requires
        line_feeds(message) == 0,
    ensures
        report_text(severity, message) == tag_text(severity) + message,
{
    crate::output::layout::lemma_one_line(tag_text(severity), message);
}

/// A message of one line by a unit is written as the tag that names the
/// unit, followed by the message.
pub proof fn lemma_named_report_of_one_line(
    severity: Severity,
    unit: Option<Seq<char>>,
    message: Seq<char>,
)
    requires
        line_feeds(message) == 0,
    ensures
        named_report_text(severity, unit, message) == named_tag_text(severity, unit) + message,
{
    crate::output::layout::lemma_one_line(named_tag_text(severity, unit), message);
}

/// What is written has as many lines as the message.
pub proof fn lemma_report_keeps_line_count(severity: Severity, message: Seq<char>)
    ensures
        line_feeds(report_text(severity, message)) == line_feeds(message),
{
    lemma_tag_is_one_line(severity);
    crate::output::layout::lemma_keeps_line_count(tag_text(severity), message);
}

} // verus!
