//! The shared error vocabulary and the positioned diagnostic the parser
//! returns.
//!
//! The parser itself only ever constructs `Syntax` (a required token kind was
//! not found) and `Parse` (a structural rule was violated); the remaining
//! variants belong to later evaluation stages that share this vocabulary.

use vstd::prelude::*;

verus! {

/// An error kind paired with its human-readable message.
#[derive(Debug, PartialEq)]
pub enum Error {
    Syntax(String),
    Value(String),
    Parse(String),
    Runtime(String),
    ZeroDivision,
}

/// Ghost mirror of [`Error`], with the message as a `Seq<char>`.
pub enum ErrorV {
    Syntax(Seq<char>),
    Value(Seq<char>),
    Parse(Seq<char>),
    Runtime(Seq<char>),
    ZeroDivision,
}

/// An error together with the source span (line, start offset, end offset)
/// of the token it points at.
#[derive(Debug, PartialEq)]
pub struct ErrorInfo {
    pub error: Error,
    pub line: usize,
    pub start: usize,
    pub end: usize,
}

/// Ghost mirror of [`ErrorInfo`].
pub struct FailV {
    pub error: ErrorV,
    pub line: int,
    pub start: int,
    pub end: int,
}

pub open spec fn error_view(e: Error) -> ErrorV {
    match e {
        Error::Syntax(m) => ErrorV::Syntax(m@),
        Error::Value(m) => ErrorV::Value(m@),
        Error::Parse(m) => ErrorV::Parse(m@),
        Error::Runtime(m) => ErrorV::Runtime(m@),
        Error::ZeroDivision => ErrorV::ZeroDivision,
    }
}

impl View for Error {
    type V = ErrorV;

    open spec fn view(&self) -> ErrorV {
        error_view(*self)
    }
}

impl View for ErrorInfo {
    type V = FailV;

    open spec fn view(&self) -> FailV {
        FailV {
            error: error_view(self.error),
            line: self.line as int,
            start: self.start as int,
            end: self.end as int,
        }
    }
}

impl ErrorInfo {
    pub fn new(error: Error, line: usize, start: usize, end: usize) -> (r: ErrorInfo)
        ensures
            r == (ErrorInfo { error, line, start, end }),
    {
        ErrorInfo { error, line, start, end }
    }
}

/// The display text of an error: its kind's label, then its message.
/// `Runtime` shows under the label `ParseError`, as the shared vocabulary has
/// always rendered it.
pub open spec fn spec_display_text(e: Error) -> Seq<char> {
    match e {
        Error::Syntax(m) => "SyntaxError: "@ + m@,
        Error::Value(m) => "ValueError: "@ + m@,
        Error::Parse(m) => "ParseError: "@ + m@,
        Error::Runtime(m) => "ParseError: "@ + m@,
        Error::ZeroDivision => "ZeroDivisionError: division by zero"@,
    }
}

impl Error {
    /// The text this error displays as, of the shape `<KindName>: <message>`.
    pub fn display_text(&self) -> (r: String)
        ensures
            r@ == spec_display_text(*self),
    {
        match self {
            Error::Syntax(m) => {
                let mut t = String::from_str("SyntaxError: ");
                t.append(m.as_str());
                t
            },
            Error::Value(m) => {
                let mut t = String::from_str("ValueError: ");
                t.append(m.as_str());
                t
            },
            Error::Parse(m) => {
                let mut t = String::from_str("ParseError: ");
                t.append(m.as_str());
                t
            },
            Error::Runtime(m) => {
                let mut t = String::from_str("ParseError: ");
                t.append(m.as_str());
                t
            },
            Error::ZeroDivision => String::from_str("ZeroDivisionError: division by zero"),
        }
    }
}

} // verus!
