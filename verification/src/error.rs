//! Error reports as text.

use vstd::prelude::*;
use crate::text::{decimal, push_decimal};
use crate::token::{Token, TokenView};

verus! {

/// The text of a report: the line, where on it, and what is wrong.
pub open spec fn report_text(line_num: u32, whr: Seq<char>, message: Seq<char>) -> Seq<char> {
    "[line "@ + decimal(line_num as nat) + "] Error "@ + whr + ": "@ + message
}

/// The text of a report of an error that a token caused.
pub open spec fn parse_report_text(message: Seq<char>, token: TokenView) -> Seq<char> {
    "Parse error for token: "@ + token.describe() + ", "@ + message
}

/// The report of an error on a line.
pub fn error_line(line_num: u32, message: &str) -> (res: String)
    ensures
        res@ == report_text(line_num, Seq::empty(), message@),
{
    proof {
        reveal_strlit("");
        assert(""@ =~= Seq::<char>::empty());
    }
    report(line_num, "", message)
}

/// The report of an error at a place on a line.
pub fn report(line_num: u32, whr: &str, message: &str) -> (res: String)
    ensures
        res@ == report_text(line_num, whr@, message@),
{
    let mut out = String::from_str("[line ");
    push_decimal(&mut out, line_num as u64);
    out.append("] Error ");
    out.append(whr);
    out.append(": ");
    out.append(message);
    assert(out@ =~= report_text(line_num, whr@, message@));
    out
}

/// An error found before a program runs.
#[derive(Debug)]
pub enum Error {
    /// An error of the scanner, and the line it was met on.
    Scan { message: String, line: u32 },
    /// An error of the parser, and the token that caused it.
    Parse { message: String, token: Token },
}

/// What an [`Error`] denotes.
pub enum ErrorView {
    Scan { message: Seq<char>, line: u32 },
    Parse { message: Seq<char>, token: TokenView },
}

impl View for Error {
    type V = ErrorView;

    open spec fn view(&self) -> ErrorView {
        match self {
            Error::Scan { message, line } => ErrorView::Scan { message: message@, line: *line },
            Error::Parse { message, token } => ErrorView::Parse {
                message: message@,
                token: token@,
            },
        }
    }
}

impl ErrorView {
    /// The text of the report of the error.
    pub open spec fn report(self) -> Seq<char> {
        match self {
            ErrorView::Scan { message, line } => report_text(line, Seq::empty(), message),
            ErrorView::Parse { message, token } => parse_report_text(message, token),
        }
    }
}

/// The report of an error.
pub fn report_err(error: &Error) -> (res: String)
    ensures
        res@ == error@.report(),
{
    match error {
        Error::Scan { message, line } => report_scan_err(message.as_str(), *line),
        Error::Parse { message, token } => report_parse_err(message.as_str(), token),
    }
}

/// The report of an error of the scanner.
pub fn report_scan_err(message: &str, line: u32) -> (res: String)
    ensures
        res@ == report_text(line, Seq::empty(), message@),
{
    error_line(line, message)
}

/// The report of an error of the parser.
pub fn report_parse_err(message: &str, token: &Token) -> (res: String)
    ensures
        res@ == parse_report_text(message@, token@),
{
    let mut out = String::from_str("Parse error for token: ");
    let described = token.describe();
    out.append(described.as_str());
    out.append(", ");
    out.append(message);
    assert(out@ =~= parse_report_text(message@, token@));
    out
}

} // verus!
