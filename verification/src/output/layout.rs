//! Laying a message out under a prefix, line by line.

use vstd::prelude::*;

verus! {

/// `String::push`: appends one character to the end of the string.
pub assume_specification[ String::push ](text: &mut String, ch: char)
    ensures
        final(text)@ == old(text)@.push(ch),
;

/// `message` with `prefix` set before each of its lines. A line ends at a
/// line feed; the text after the last line feed is a line too, also where it
/// is empty.
pub open spec fn prefixed(prefix: Seq<char>, message: Seq<char>) -> Seq<char>
    decreases message.len(),
{
    if message.len() == 0 {
        prefix
    } else if message.last() == '\n' {
        prefixed(prefix, message.drop_last()).push('\n') + prefix
    } else {
        prefixed(prefix, message.drop_last()).push(message.last())
    }
}

/// Sets `prefix` before each line of `message`.
pub fn prefix_lines(prefix: &str, message: &str) -> (text: String)
    ensures
        text@ == prefixed(prefix@, message@),
{
    let mut text = String::from_str(prefix);
    for ch in it: message.chars()
        invariant
            it.seq() == message@,
            text@ == prefixed(prefix@, message@.take(it.index() as int)),
    {
        proof {
            let upto = message@.take(it.index() + 1);
            assert(upto.drop_last() == message@.take(it.index() as int));
            assert(upto.last() == ch);
        }
        if ch == '\n' {
            text.push('\n');
            text.append(prefix);
        } else {
            text.push(ch);
        }
    }
    assert(message@.take(message@.len() as int) == message@);
    text
}

/// The number of line feeds in `text`.
pub open spec fn line_feeds(text: Seq<char>) -> nat
    decreases text.len(),
{
    if text.len() == 0 {
        0
    } else if text.last() == '\n' {
        line_feeds(text.drop_last()) + 1
    } else {
        line_feeds(text.drop_last())
    }
}

/// The line feeds of two texts set end to end are those of the one and
/// those of the other.
pub proof fn lemma_line_feeds_add(left: Seq<char>, right: Seq<char>)
    ensures
        line_feeds(left + right) == line_feeds(left) + line_feeds(right),
    decreases right.len(),
{
    if right.len() == 0 {
        assert(left + right == left);
    } else {
        assert((left + right).drop_last() == left + right.drop_last());
        assert((left + right).last() == right.last());
        lemma_line_feeds_add(left, right.drop_last());
    }
}

/// A message of one line comes out as the prefix followed by the message.
pub proof fn lemma_one_line(prefix: Seq<char>, message: Seq<char>)
    requires
        line_feeds(message) == 0,
    ensures
        prefixed(prefix, message) == prefix + message,
    decreases message.len(),
{
    if message.len() == 0 {
        assert(prefix + message == prefix);
    } else {
        lemma_one_line(prefix, message.drop_last());
        assert(prefix + message == (prefix + message.drop_last()).push(message.last()));
    }
}

/// Every line is laid out alike: two messages joined by a line feed come out
/// as the layout of the first, a line feed, and the layout of the second.
pub proof fn lemma_lines_alike(prefix: Seq<char>, first: Seq<char>, second: Seq<char>)
    ensures
        prefixed(prefix, first.push('\n') + second) == prefixed(prefix, first).push('\n')
            + prefixed(prefix, second),
    decreases second.len(),
{
    let joined = first.push('\n') + second;
    if second.len() == 0 {
        assert(joined == first.push('\n'));
        assert(joined.drop_last() == first);
    } else {
        assert(joined.drop_last() == first.push('\n') + second.drop_last());
        assert(joined.last() == second.last());
        lemma_lines_alike(prefix, first, second.drop_last());
        let head = prefixed(prefix, first).push('\n');
        let tail = prefixed(prefix, second.drop_last());
        if second.last() == '\n' {
            assert((head + tail).push('\n') + prefix == head + (tail.push('\n') + prefix));
        } else {
            assert((head + tail).push(second.last()) == head + tail.push(second.last()));
        }
    }
}

/// Laying out keeps the number of lines: under a prefix without a line feed
/// the result has as many line feeds as the message.
pub proof fn lemma_keeps_line_count(prefix: Seq<char>, message: Seq<char>)
    requires
        line_feeds(prefix) == 0,
    ensures
        line_feeds(prefixed(prefix, message)) == line_feeds(message),
    decreases message.len(),
{
    if message.len() > 0 {
        let before = prefixed(prefix, message.drop_last());
        lemma_keeps_line_count(prefix, message.drop_last());
        if message.last() == '\n' {
            lemma_line_feeds_add(before.push('\n'), prefix);
            assert(before.push('\n').drop_last() == before);
        } else {
            assert(before.push(message.last()).drop_last() == before);
        }
    }
}

} // verus!
