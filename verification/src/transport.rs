//! The framing of the line-oriented transport: one message per line.
//!
//! Reading and writing the lines themselves is the business of the program;
//! here is what a line that was read means, and what is written for a message.

use crate::text::{
    chars_of, option_text, string_from_chars, trim, trim_range, truncate_utf8, truncated,
};
use vstd::prelude::*;
use vstd::string::{StringExecFns, StringSliceAdditionalSpecFns};

verus! {

/// How many bytes of a message are shown in a debug log.
pub const DEBUG_MESSAGE_MAX_LEN: usize = 80;

/// What one read from the input means.
#[derive(Debug, PartialEq)]
pub enum Incoming {
    /// The input is at its end.
    Closed,
    /// The line was blank: there is no message in it.
    Blank,
    /// The line holds this message.
    Message(String),
}

/// What an [`Incoming`] stands for.
pub enum IncomingValue {
    Closed,
    Blank,
    Message(Seq<char>),
}

impl View for Incoming {
    type V = IncomingValue;

    open spec fn view(&self) -> IncomingValue {
        match self {
            Incoming::Closed => IncomingValue::Closed,
            Incoming::Blank => IncomingValue::Blank,
            Incoming::Message(text) => IncomingValue::Message(text@),
        }
    }
}

/// What a read of `bytes_read` bytes that gave `line` means: no bytes mark
/// the end of the input, and a line is the message that is left of it without
/// the whitespace around it, if anything is left.
pub open spec fn incoming_of(bytes_read: nat, line: Seq<char>) -> IncomingValue {
    if bytes_read == 0 {
        IncomingValue::Closed
    } else if trim(line).len() == 0 {
        IncomingValue::Blank
    } else {
        IncomingValue::Message(trim(line))
    }
}

impl IncomingValue {
    /// The message, where there is one.
    pub open spec fn message(self) -> Option<Seq<char>> {
        match self {
            IncomingValue::Message(text) => Some(text),
            _ => None,
        }
    }
}

impl Incoming {
    /// The message, where the read gave one.
    pub fn message(self) -> (message: Option<String>)
        ensures
            option_text(message) == self@.message(),
    {
        match self {
            Incoming::Message(text) => Some(text),
            _ => None,
        }
    }
}

/// The line that is written for `message`: the message and a line feed.
pub open spec fn outgoing_line(message: Seq<char>) -> Seq<char> {
    message + "\n"@
}

/// The start of a message as a debug log shows it: cut to 80 bytes without
/// splitting a character.
pub fn truncate_for_debug(message: &str) -> (shown: &str)
    ensures
        shown@ == truncated(message@, DEBUG_MESSAGE_MAX_LEN as nat),
        shown@.is_prefix_of(message@),
        shown.spec_bytes().len() <= DEBUG_MESSAGE_MAX_LEN,
        message.spec_bytes().len() <= DEBUG_MESSAGE_MAX_LEN ==> shown@ == message@,
{
    truncate_utf8(message, DEBUG_MESSAGE_MAX_LEN)
}

/// Says what one read from the input means, from the number of bytes it gave
/// and the line it filled.
pub fn read_line(bytes_read: usize, line: &str) -> (incoming: Incoming)
    ensures
        incoming@ == incoming_of(bytes_read as nat, line@),
{
    if bytes_read == 0 {
        return Incoming::Closed;
    }
    let chars = chars_of(line);
    assert(chars@.subrange(0, chars@.len() as int) == chars@);
    let trimmed = trim_range(&chars, 0, chars.len());
    if trimmed.len() == 0 {
        Incoming::Blank
    } else {
        Incoming::Message(string_from_chars(trimmed.as_slice()))
    }
}

/// The line to write for a message.
pub fn write_line(message: &str) -> (line: String)
    ensures
        line@ == outgoing_line(message@),
{
    let mut line = String::from_str(message);
    line.append("\n");
    line
}

} // verus!
