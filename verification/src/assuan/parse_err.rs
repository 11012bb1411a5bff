//! Why a line was not taken as a directive.

use crate::number::{decimal_digits, push_decimal};
use vstd::prelude::*;
use vstd::string::StringExecFns;

verus! {

/// The greatest length of a line, in bytes.
pub const LINE_LIMITS: usize = 1000;

/// Why a line was not taken as a directive.
#[derive(PartialEq, Debug)]
pub enum ParseErr {
    /// The keyword is none of the protocol's; holds the whole line.
    UnknownCommand(String),
    /// The line is longer than `LINE_LIMITS`; holds its length in bytes.
    StringTooLong(usize),
    /// The line is empty.
    Empty,
    /// The text behind `SETTIMEOUT` is no number of seconds; holds that text.
    InvalidDuration(String),
    /// The text behind `OPTION` names no option in a form that is known; holds that text.
    UnknownOption(String),
}

/// A `ParseErr` with its texts as sequences of characters.
pub enum ParseErrView {
    UnknownCommand(Seq<char>),
    StringTooLong(usize),
    Empty,
    InvalidDuration(Seq<char>),
    UnknownOption(Seq<char>),
}

impl View for ParseErr {
    type V = ParseErrView;

    open spec fn view(&self) -> ParseErrView {
        match self {
            ParseErr::UnknownCommand(line) => ParseErrView::UnknownCommand(line@),
            ParseErr::StringTooLong(len) => ParseErrView::StringTooLong(*len),
            ParseErr::Empty => ParseErrView::Empty,
            ParseErr::InvalidDuration(text) => ParseErrView::InvalidDuration(text@),
            ParseErr::UnknownOption(text) => ParseErrView::UnknownOption(text@),
        }
    }
}

impl Clone for ParseErr {
    fn clone(&self) -> (copy: ParseErr)
        ensures
            copy@ == self@,
    {
        match self {
            ParseErr::UnknownCommand(line) => ParseErr::UnknownCommand(line.clone()),
            ParseErr::StringTooLong(len) => ParseErr::StringTooLong(*len),
            ParseErr::Empty => ParseErr::Empty,
            ParseErr::InvalidDuration(text) => ParseErr::InvalidDuration(text.clone()),
            ParseErr::UnknownOption(text) => ParseErr::UnknownOption(text.clone()),
        }
    }
}

impl ParseErrView {
    /// The message that describes the error.
    pub open spec fn message(self) -> Seq<char> {
        match self {
            ParseErrView::UnknownCommand(line) => "unknown command with name `"@ + line + "`"@,
            ParseErrView::StringTooLong(len) => "string too long, limit is "@ + decimal_digits(
                LINE_LIMITS as nat,
            ) + " bytes, received a command of size "@ + decimal_digits(len as nat),
            ParseErrView::Empty => "empty string"@,
            ParseErrView::InvalidDuration(text) => "invalid duration, error converting `"@ + text
                + "`"@,
            ParseErrView::UnknownOption(text) => "unknown OPTION named `"@ + text + "`"@,
        }
    }
}

impl ParseErr {
    /// The message that describes the error.
    pub fn to_string(&self) -> (s: String)
        ensures
            s@ == self@.message(),
    {
        match self {
            ParseErr::UnknownCommand(line) => {
                let mut s = "unknown command with name `".to_owned();
                s.append(line.as_str());
                s.append("`");
                s
            },
            ParseErr::StringTooLong(len) => {
                let mut s = "string too long, limit is ".to_owned();
                push_decimal(&mut s, LINE_LIMITS as u64);
                s.append(" bytes, received a command of size ");
                push_decimal(&mut s, *len as u64);
                s
            },
            ParseErr::Empty => "empty string".to_owned(),
            ParseErr::InvalidDuration(text) => {
                let mut s = "invalid duration, error converting `".to_owned();
                s.append(text.as_str());
                s.append("`");
                s
            },
            ParseErr::UnknownOption(text) => {
                let mut s = "unknown OPTION named `".to_owned();
                s.append(text.as_str());
                s.append("`");
                s
            },
        }
    }
}

} // verus!
