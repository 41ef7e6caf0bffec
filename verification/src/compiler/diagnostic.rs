//! What the compiler reports about a program that it cannot compile.

use vstd::prelude::*;
use crate::text::{decimal, push_decimal};

verus! {

/// Where in the source an error was found, as far as the report says.
#[derive(Debug)]
pub enum Place {
    /// At the end of the input.
    End,
    /// At the token with this text.
    Lexeme(String),
    /// The report names no token.
    Unplaced,
}

/// What a [`Place`] denotes.
pub enum PlaceView {
    End,
    Lexeme(Seq<char>),
    Unplaced,
}

impl View for Place {
    type V = PlaceView;

    open spec fn view(&self) -> PlaceView {
        match self {
            Place::End => PlaceView::End,
            Place::Lexeme(text) => PlaceView::Lexeme(text@),
            Place::Unplaced => PlaceView::Unplaced,
        }
    }
}

/// One reported error.
#[derive(Debug)]
pub struct Diagnostic {
    pub line: u32,
    pub place: Place,
    pub message: String,
}

/// What a [`Diagnostic`] denotes.
pub struct DiagnosticView {
    pub line: u32,
    pub place: PlaceView,
    pub message: Seq<char>,
}

impl View for Diagnostic {
    type V = DiagnosticView;

    open spec fn view(&self) -> DiagnosticView {
        DiagnosticView { line: self.line, place: self.place@, message: self.message@ }
    }
}

/// The views of a sequence of diagnostics.
pub open spec fn diagnostic_views(diagnostics: Seq<Diagnostic>) -> Seq<DiagnosticView> {
    diagnostics.map_values(|d: Diagnostic| d@)
}

impl DiagnosticView {
    /// The report as one line of text: the line number, the place where the
    /// report names one, and the message.
    pub open spec fn render(self) -> Seq<char> {
        "[line "@ + decimal(self.line as nat) + "] Error"@ + match self.place {
            PlaceView::End => " at end"@,
            PlaceView::Lexeme(text) => " at '"@ + text + "'"@,
            PlaceView::Unplaced => Seq::empty(),
        } + " "@ + self.message
    }
}

impl Clone for Place {
    fn clone(&self) -> (res: Place)
        ensures
            res@ == self@,
    {
        match self {
            Place::End => Place::End,
            Place::Lexeme(text) => Place::Lexeme(text.clone()),
            Place::Unplaced => Place::Unplaced,
        }
    }
}

impl Clone for Diagnostic {
    fn clone(&self) -> (res: Diagnostic)
        ensures
            res@ == self@,
    {
        Diagnostic {
            line: self.line,
            place: self.place.clone(),
            message: self.message.clone(),
        }
    }
}

impl Diagnostic {
    /// Renders the report as one line of text.
    pub fn render(&self) -> (res: String)
        ensures
            res@ == self@.render(),
    {
        let mut out = String::from_str("[line ");
        push_decimal(&mut out, self.line as u64);
        out.append("] Error");
        match &self.place {
            Place::End => {
                out.append(" at end");
            },
            Place::Lexeme(text) => {
                out.append(" at '");
                out.append(text.as_str());
                out.append("'");
            },
            Place::Unplaced => {},
        }
        out.append(" ");
        out.append(self.message.as_str());
        assert(out@ =~= self@.render());
        out
    }
}

} // verus!
