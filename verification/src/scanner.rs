//! The scanner: turns source text into tokens, one at a time, on demand.

use vstd::prelude::*;
use crate::text::{chars_of, string_of};
use crate::token::{Token, TokenType, TokenView};

verus! {

/// Whether `c` is alphabetic, as `char::is_alphabetic` answers.
pub uninterp spec fn alphabetic(c: char) -> bool;

/// Whether `c` is alphabetic or numeric, as `char::is_alphanumeric` answers.
pub uninterp spec fn alphanumeric(c: char) -> bool;

/// Whether `c` is one of the 52 letters of ASCII.
pub open spec fn is_ascii_letter(c: char) -> bool {
    'a' <= c <= 'z' || 'A' <= c <= 'Z'
}

/// Whether `c` is one of the ten decimal digits.
pub open spec fn is_digit(c: char) -> bool {
    '0' <= c <= '9'
}

/// `char::is_alphabetic` decides the Unicode property `Alphabetic`, which
/// among the characters of ASCII the 52 letters have and no other.
pub assume_specification[ char::is_alphabetic ](c: char) -> (res: bool)
    ensures
        res == alphabetic(c),
        c <= '\x7f' ==> res == is_ascii_letter(c),
;

/// `char::is_alphanumeric` decides whether a character is alphabetic or
/// numeric, which among the characters of ASCII the 52 letters and the ten
/// digits are and no other.
pub assume_specification[ char::is_alphanumeric ](c: char) -> (res: bool)
    ensures
        res == alphanumeric(c),
        c <= '\x7f' ==> res == (is_ascii_letter(c) || is_digit(c)),
;

/// Whether `c` may start an identifier: a letter of ASCII, or a character
/// beyond ASCII that is alphabetic.
pub open spec fn is_letter(c: char) -> bool {
    if c <= '\x7f' {
        is_ascii_letter(c)
    } else {
        alphabetic(c)
    }
}

/// Whether `c` may continue an identifier: a letter or a digit of ASCII, an
/// underscore, or a character beyond ASCII that is alphabetic or numeric.
pub open spec fn is_identifier_char(c: char) -> bool {
    if c <= '\x7f' {
        is_ascii_letter(c) || is_digit(c) || c == '_'
    } else {
        alphanumeric(c)
    }
}

/// The kinds of run that the scanner reads in one go.
pub enum Run {
    /// The rest of a line: everything up to a line feed.
    Line,
    /// The inside of a string literal: everything up to a double quote.
    Text,
    /// Decimal digits.
    Digits,
    /// Characters that continue an identifier.
    Word,
}

impl Run {
    /// Whether the run goes on over `c`.
    pub open spec fn takes(self, c: char) -> bool {
        match self {
            Run::Line => c != '\n',
            Run::Text => c != '"',
            Run::Digits => is_digit(c),
            Run::Word => is_identifier_char(c),
        }
    }
}

/// Where the longest run of the given kind that starts at `from` ends: the
/// first position at or after `from` whose character the run does not take,
/// or the end of the source.
pub open spec fn run_end(source: Seq<char>, from: int, run: Run) -> int
    decreases source.len() - from,
{
    if 0 <= from < source.len() && run.takes(source[from]) {
        run_end(source, from + 1, run)
    } else {
        from
    }
}

/// A run ends at or after its start and within the source, takes every
/// character before its end, and does not take the one at its end.
pub proof fn lemma_run_end(source: Seq<char>, from: int, run: Run)
    requires
        0 <= from <= source.len(),
    ensures
        from <= run_end(source, from, run) <= source.len(),
        forall|i: int| from <= i < run_end(source, from, run) ==> run.takes(#[trigger] source[i]),
        run_end(source, from, run) < source.len() ==> !run.takes(
            source[run_end(source, from, run)],
        ),
    decreases source.len() - from,
{
    if from < source.len() && run.takes(source[from]) {
        lemma_run_end(source, from + 1, run);
    }
}

/// The number of line feeds in `source[from..to]`.
pub open spec fn newlines(source: Seq<char>, from: int, to: int) -> nat
    decreases to - from,
{
    if 0 <= from < to <= source.len() {
        newlines(source, from, to - 1) + if source[to - 1] == '\n' {
            1nat
        } else {
            0nat
        }
    } else {
        0
    }
}

/// The line number `by` lines after `line`; line numbers stop at the largest
/// that fits.
pub open spec fn line_plus(line: u32, by: nat) -> u32 {
    if line + by <= u32::MAX {
        (line + by) as u32
    } else {
        u32::MAX
    }
}

/// Scanning a block comment from `from`, `nesting` levels deep: where the
/// scan stops, and whether the comment was closed there. Block comments nest,
/// and a comment that meets a NUL character or the end of the source before
/// it is closed is unterminated.
pub open spec fn comment_end(source: Seq<char>, from: int, nesting: nat) -> (int, bool)
    decreases source.len() - from,
{
    if nesting == 0 {
        (from, true)
    } else if !(0 <= from < source.len()) || source[from] == '\0' {
        (from, false)
    } else if source[from] == '/' && from + 1 < source.len() && source[from + 1] == '*' {
        comment_end(source, from + 2, nesting + 1)
    } else if source[from] == '*' && from + 1 < source.len() && source[from + 1] == '/' {
        comment_end(source, from + 2, (nesting - 1) as nat)
    } else {
        comment_end(source, from + 1, nesting)
    }
}

/// The scan of a block comment stops at or after its start and within the
/// source.
pub proof fn lemma_comment_end(source: Seq<char>, from: int, nesting: nat)
    requires
        0 <= from <= source.len(),
    ensures
        from <= comment_end(source, from, nesting).0 <= source.len(),
    decreases source.len() - from,
{
    if nesting == 0 {
    } else if !(0 <= from < source.len()) || source[from] == '\0' {
    } else if source[from] == '/' && from + 1 < source.len() && source[from + 1] == '*' {
        lemma_comment_end(source, from + 2, nesting + 1);
    } else if source[from] == '*' && from + 1 < source.len() && source[from + 1] == '/' {
        lemma_comment_end(source, from + 2, (nesting - 1) as nat);
    } else {
        lemma_comment_end(source, from + 1, nesting);
    }
}

/// The keyword that `lexeme` spells, if it spells one.
pub open spec fn keyword(lexeme: Seq<char>) -> Option<TokenType> {
    if lexeme == "and"@ {
        Some(TokenType::And)
    } else if lexeme == "class"@ {
        Some(TokenType::Class)
    } else if lexeme == "else"@ {
        Some(TokenType::Else)
    } else if lexeme == "false"@ {
        Some(TokenType::False)
    } else if lexeme == "for"@ {
        Some(TokenType::For)
    } else if lexeme == "fun"@ {
        Some(TokenType::Fun)
    } else if lexeme == "if"@ {
        Some(TokenType::If)
    } else if lexeme == "nil"@ {
        Some(TokenType::Nil)
    } else if lexeme == "or"@ {
        Some(TokenType::Or)
    } else if lexeme == "print"@ {
        Some(TokenType::Print)
    } else if lexeme == "return"@ {
        Some(TokenType::Return)
    } else if lexeme == "super"@ {
        Some(TokenType::Super)
    } else if lexeme == "this"@ {
        Some(TokenType::This)
    } else if lexeme == "true"@ {
        Some(TokenType::True)
    } else if lexeme == "var"@ {
        Some(TokenType::Var)
    } else if lexeme == "while"@ {
        Some(TokenType::While)
    } else {
        None
    }
}

/// An error met while scanning, and the line it was met on.
#[derive(Debug)]
pub struct ScanError {
    pub message: String,
    pub line: u32,
}

/// What a [`ScanError`] denotes.
pub struct ScanErrorView {
    pub message: Seq<char>,
    pub line: u32,
}

impl View for ScanError {
    type V = ScanErrorView;

    open spec fn view(&self) -> ScanErrorView {
        ScanErrorView { message: self.message@, line: self.line }
    }
}

/// What one call of the scanner yields.
pub type Scanned = Result<TokenView, ScanErrorView>;

/// The view of what one call of the scanner returns.
pub open spec fn scanned(result: Result<Token, ScanError>) -> Scanned {
    match result {
        Ok(token) => Ok(token@),
        Err(error) => Err(error@),
    }
}

/// The state of a scanner: the source, where the token being scanned starts,
/// the position of the next character to read, and the current line.
pub struct ScannerView {
    pub source: Seq<char>,
    pub start: int,
    pub current: int,
    pub line: u32,
}

impl ScannerView {
    /// A scanner at the start of `source`, on line 1.
    pub open spec fn begin(source: Seq<char>) -> ScannerView {
        ScannerView { source, start: 0, current: 0, line: 1 }
    }

    /// The positions are in order and within the source.
    pub open spec fn wf(self) -> bool {
        0 <= self.start <= self.current <= self.source.len()
    }

    /// Whether every character has been read.
    pub open spec fn is_at_end(self) -> bool {
        self.current >= self.source.len()
    }

    /// How many characters are left to read.
    pub open spec fn remaining(self) -> nat {
        if self.current < self.source.len() {
            (self.source.len() - self.current) as nat
        } else {
            0
        }
    }

    /// The next character to read; NUL at the end of the source.
    pub open spec fn peek(self) -> char {
        if 0 <= self.current < self.source.len() {
            self.source[self.current]
        } else {
            '\0'
        }
    }

    /// The character after the next; NUL where there is none.
    pub open spec fn peek_next(self) -> char {
        if 0 <= self.current + 1 < self.source.len() {
            self.source[self.current + 1]
        } else {
            '\0'
        }
    }

    /// The scanner with its reading position at `current`.
    pub open spec fn at(self, current: int) -> ScannerView {
        ScannerView { current, ..self }
    }

    /// The text of the token being scanned.
    pub open spec fn lexeme(self) -> Seq<char> {
        self.source.subrange(self.start, self.current)
    }

    /// The token of the given category that ends at the reading position.
    pub open spec fn token(self, token_type: TokenType) -> TokenView {
        TokenView { token_type, lexeme: self.lexeme(), line: self.line }
    }

    /// The scan ends here with a token of the given category.
    pub open spec fn emit(self, token_type: TokenType) -> (ScannerView, Scanned) {
        (self, Ok(self.token(token_type)))
    }

    /// The scan ends here with an error.
    pub open spec fn fail(self, message: Seq<char>) -> (ScannerView, Scanned) {
        (self, Err(ScanErrorView { message, line: self.line }))
    }

    /// A token of one or two characters: `long` where the next character is
    /// `second`, which is then read too, and `short` otherwise.
    pub open spec fn either(self, second: char, long: TokenType, short: TokenType) -> (
        ScannerView,
        Scanned,
    ) {
        if !self.is_at_end() && self.peek() == second {
            self.at(self.current + 1).emit(long)
        } else {
            self.emit(short)
        }
    }

    /// A string literal whose opening quote has been read: everything up to
    /// the closing quote, which may be lines further down. Without a closing
    /// quote the string is unterminated.
    pub open spec fn string(self) -> (ScannerView, Scanned) {
        let end = run_end(self.source, self.current, Run::Text);
        let line = line_plus(self.line, newlines(self.source, self.current, end));
        let ended = ScannerView { current: end, line, ..self };
        if ended.is_at_end() {
            ended.fail("Unterminated String"@)
        } else {
            ended.at(end + 1).emit(TokenType::String)
        }
    }

    /// A number literal whose first digit has been read: the digits that
    /// follow and, where a point and a digit come next, the point and the
    /// digits after it.
    pub open spec fn number(self) -> (ScannerView, Scanned) {
        let whole = self.at(run_end(self.source, self.current, Run::Digits));
        if whole.peek() == '.' && is_digit(whole.peek_next()) {
            whole.at(run_end(self.source, whole.current + 1, Run::Digits)).emit(TokenType::Number)
        } else {
            whole.emit(TokenType::Number)
        }
    }

    /// An identifier or keyword whose first character has been read.
    pub open spec fn identifier_or_keyword(self) -> (ScannerView, Scanned) {
        let ended = self.at(run_end(self.source, self.current, Run::Word));
        match keyword(ended.lexeme()) {
            Some(token_type) => ended.emit(token_type),
            None => ended.emit(TokenType::Identifier),
        }
    }

    /// Scans the next token: the scanner afterwards, and the token or the
    /// error found. Blanks, line feeds and comments before the token are
    /// passed over; at the end of the source the token is `Eof`.
    pub open spec fn scan_token(self) -> (ScannerView, Scanned)
        decreases self.remaining(),
    {
        let begun = ScannerView { start: self.current, ..self };
        if self.current < 0 || begun.is_at_end() {
            begun.emit(TokenType::Eof)
        } else {
            let c = self.source[self.current];
            let s = begun.at(self.current + 1);
            if c == '(' {
                s.emit(TokenType::LeftParen)
            } else if c == ')' {
                s.emit(TokenType::RightParen)
            } else if c == '{' {
                s.emit(TokenType::LeftBrace)
            } else if c == '}' {
                s.emit(TokenType::RightBrace)
            } else if c == ',' {
                s.emit(TokenType::Comma)
            } else if c == '.' {
                s.emit(TokenType::Dot)
            } else if c == ';' {
                s.emit(TokenType::Semicolon)
            } else if c == '-' {
                s.emit(TokenType::Minus)
            } else if c == '+' {
                s.emit(TokenType::Plus)
            } else if c == '*' {
                s.emit(TokenType::Star)
            } else if c == '!' {
                s.either('=', TokenType::BangEqual, TokenType::Bang)
            } else if c == '=' {
                s.either('=', TokenType::EqualEqual, TokenType::Equal)
            } else if c == '<' {
                s.either('=', TokenType::LessEqual, TokenType::Less)
            } else if c == '>' {
                s.either('=', TokenType::GreaterEqual, TokenType::Greater)
            } else if c == '/' {
                if !s.is_at_end() && s.peek() == '/' {
                    let end = run_end(self.source, s.current + 1, Run::Line);
                    proof {
                        lemma_run_end(self.source, s.current + 1, Run::Line);
                    }
                    s.at(end).scan_token()
                } else if !s.is_at_end() && s.peek() == '*' {
                    let (end, closed) = comment_end(self.source, s.current + 1, 1);
                    proof {
                        lemma_comment_end(self.source, s.current + 1, 1);
                    }
                    if closed {
                        s.at(end).scan_token()
                    } else {
                        s.at(end).fail("Unterminated Multiline Comment"@)
                    }
                } else {
                    s.emit(TokenType::Slash)
                }
            } else if c == ' ' || c == '\r' || c == '\t' {
                s.scan_token()
            } else if c == '\n' {
                ScannerView { line: line_plus(s.line, 1), ..s }.scan_token()
            } else if c == '"' {
                s.string()
            } else if is_digit(c) {
                s.number()
            } else if is_letter(c) {
                s.identifier_or_keyword()
            } else {
                s.fail("Unexpected character: "@.push(c))
            }
        }
    }
}

/// A scan leaves the source as it is and never moves back; it reads at least
/// one character unless it yields `Eof`, and it yields `Eof` only at the end
/// of the source.
pub proof fn lemma_scan_token(s: ScannerView)
    requires
        s.wf(),
    ensures
        s.scan_token().0.wf(),
        s.scan_token().0.source == s.source,
        s.scan_token().0.current >= s.current,
        !(s.scan_token().1 matches Ok(token) && token.token_type == TokenType::Eof)
            ==> s.scan_token().0.current > s.current,
        s.scan_token().1 matches Ok(token) && token.token_type == TokenType::Eof
            ==> s.scan_token().0.is_at_end(),
    decreases s.remaining(),
{
    let begun = ScannerView { start: s.current, ..s };
    if begun.is_at_end() {
    } else {
        let c = s.source[s.current];
        let next = begun.at(s.current + 1);
        if c == '/' {
            if !next.is_at_end() && next.peek() == '/' {
                lemma_run_end(s.source, next.current + 1, Run::Line);
                lemma_scan_token(next.at(run_end(s.source, next.current + 1, Run::Line)));
            } else if !next.is_at_end() && next.peek() == '*' {
                lemma_comment_end(s.source, next.current + 1, 1);
                let (end, closed) = comment_end(s.source, next.current + 1, 1);
                if closed {
                    lemma_scan_token(next.at(end));
                }
            }
        } else if c == ' ' || c == '\r' || c == '\t' {
            lemma_scan_token(next);
        } else if c == '\n' {
            lemma_scan_token(ScannerView { line: line_plus(next.line, 1), ..next });
        } else if c == '"' {
            lemma_run_end(s.source, next.current, Run::Text);
        } else if is_digit(c) {
            lemma_run_end(s.source, next.current, Run::Digits);
            let whole = next.at(run_end(s.source, next.current, Run::Digits));
            if whole.peek() == '.' && is_digit(whole.peek_next()) {
                lemma_run_end(s.source, whole.current + 1, Run::Digits);
            }
        } else if is_letter(c) {
            lemma_run_end(s.source, next.current, Run::Word);
            lemma_keywords_are_not_eof(
                next.at(run_end(s.source, next.current, Run::Word)).lexeme(),
            );
        }
    }
}

/// No keyword is the end of input.
pub proof fn lemma_keywords_are_not_eof(lexeme: Seq<char>)
    ensures
        keyword(lexeme) != Some(TokenType::Eof),
{
}


/// The scanner.
#[derive(Debug)]
pub struct Scanner {
    source: Vec<char>,
    start: usize,
    current: usize,
    line: u32,
}

impl View for Scanner {
    type V = ScannerView;

    closed spec fn view(&self) -> ScannerView {
        ScannerView {
            source: self.source@,
            start: self.start as int,
            current: self.current as int,
            line: self.line,
        }
    }
}

impl Scanner {
    #[verifier::type_invariant]
    spec fn well_formed(self) -> bool {
        self.start <= self.current <= self.source.len()
    }

    /// A scanner at the start of `source`.
    pub fn new(source: String) -> (res: Scanner)
        ensures
            res@ == ScannerView::begin(source@),
            res@.wf(),
    {
        Scanner { source: chars_of(source.as_str()), start: 0, current: 0, line: 1 }
    }

    /// Starts over on a new source.
    pub fn reset_with_source(&mut self, source: String)
        ensures
            final(self)@ == ScannerView::begin(source@),
            final(self)@.wf(),
    {
        *self = Scanner { source: chars_of(source.as_str()), start: 0, current: 0, line: 1 };
    }

    /// Whether every character of the source has been read.
    pub fn is_at_end(&self) -> (res: bool)
        ensures
            res == self@.is_at_end(),
            self@.wf(),
    {
        proof {
            use_type_invariant(self);
        }
        self.current >= self.source.len()
    }

    /// Scans the next token.
    ///
    /// Returns the token, or the error that was met in place of one; after an
    /// error the scan goes on behind the text that caused it. At the end of
    /// the source every call returns an `Eof` token.
    pub fn scan_token(&mut self) -> (res: Result<Token, ScanError>)
        ensures
            (final(self)@, scanned(res)) == old(self)@.scan_token(),
            old(self)@.wf(),
            final(self)@.wf(),
        decreases old(self)@.remaining(), 1nat,
    {
        proof {
            use_type_invariant(&*self);
        }
        self.start = self.current;
        if self.is_at_end() {
            return self.build_token(TokenType::Eof);
        }
        let character = self.advance();
        match character {
            '(' => self.build_token(TokenType::LeftParen),
            ')' => self.build_token(TokenType::RightParen),
            '{' => self.build_token(TokenType::LeftBrace),
            '}' => self.build_token(TokenType::RightBrace),
            ',' => self.build_token(TokenType::Comma),
            '.' => self.build_token(TokenType::Dot),
            ';' => self.build_token(TokenType::Semicolon),
            '-' => self.build_token(TokenType::Minus),
            '+' => self.build_token(TokenType::Plus),
            '*' => self.build_token(TokenType::Star),
            '!' => {
                if self.match_('=') {
                    self.build_token(TokenType::BangEqual)
                } else {
                    self.build_token(TokenType::Bang)
                }
            },
            '=' => {
                if self.match_('=') {
                    self.build_token(TokenType::EqualEqual)
                } else {
                    self.build_token(TokenType::Equal)
                }
            },
            '<' => {
                if self.match_('=') {
                    self.build_token(TokenType::LessEqual)
                } else {
                    self.build_token(TokenType::Less)
                }
            },
            '>' => {
                if self.match_('=') {
                    self.build_token(TokenType::GreaterEqual)
                } else {
                    self.build_token(TokenType::Greater)
                }
            },
            '/' => {
                if self.match_('/') {
                    self.skip(Run::Line);
                    proof {
                        lemma_run_end(old(self)@.source, old(self)@.current + 2, Run::Line);
                    }
                    self.proceed_with_next()
                } else if self.match_('*') {
                    proof {
                        lemma_comment_end(old(self)@.source, old(self)@.current + 2, 1);
                    }
                    match self.multiline_comment() {
                        Err(error) => Err(error),
                        Ok(()) => self.proceed_with_next(),
                    }
                } else {
                    self.build_token(TokenType::Slash)
                }
            },
            ' ' | '\r' | '\t' => self.proceed_with_next(),
            '\n' => {
                self.next_line();
                self.proceed_with_next()
            },
            '"' => self.string(),
            _ => {
                if is_decimal_digit(character) {
                    self.number()
                } else if character.is_alphabetic() {
                    self.identifier_or_keyword()
                } else {
                    let mut message = String::from_str("Unexpected character: ");
                    message.push(character);
                    proof {
                        use_type_invariant(&*self);
                    }
                    Err(ScanError { message, line: self.line })
                }
            },
        }
    }

    /// Goes on to the token behind what has just been passed over.
    fn proceed_with_next(&mut self) -> (res: Result<Token, ScanError>)
        ensures
            (final(self)@, scanned(res)) == old(self)@.scan_token(),
            final(self)@.wf(),
        decreases old(self)@.remaining(), 2nat,
    {
        self.scan_token()
    }

    /// Reads the next character if it is `expected`, and says whether it was.
    fn match_(&mut self, expected: char) -> (res: bool)
        ensures
            res == (!old(self)@.is_at_end() && old(self)@.peek() == expected),
            final(self)@ == if res {
                old(self)@.at(old(self)@.current + 1)
            } else {
                old(self)@
            },
            final(self)@.wf(),
    {
        proof {
            use_type_invariant(&*self);
        }
        if self.is_at_end() {
            false
        } else if self.source[self.current] != expected {
            false
        } else {
            self.current += 1;
            true
        }
    }

    /// The next character to read; NUL at the end of the source.
    fn peek(&self) -> (res: char)
        ensures
            res == self@.peek(),
    {
        if self.is_at_end() {
            '\0'
        } else {
            self.source[self.current]
        }
    }

    /// The character after the next; NUL where there is none.
    fn peek_next(&self) -> (res: char)
        ensures
            res == self@.peek_next(),
    {
        proof {
            use_type_invariant(self);
        }
        if self.source.len() - self.current <= 1 {
            '\0'
        } else {
            self.source[self.current + 1]
        }
    }

    /// Reads one character.
    fn advance(&mut self) -> (res: char)
        requires
            !old(self)@.is_at_end(),
        ensures
            res == old(self)@.peek(),
            final(self)@ == old(self)@.at(old(self)@.current + 1),
            final(self)@.wf(),
    {
        proof {
            use_type_invariant(&*self);
        }
        let c = self.source[self.current];
        self.current += 1;
        c
    }

    /// Moves to the next line.
    fn next_line(&mut self)
        ensures
            final(self)@ == (ScannerView { line: line_plus(old(self)@.line, 1), ..old(self)@ }),
    {
        proof {
            use_type_invariant(&*self);
        }
        if self.line < u32::MAX {
            self.line += 1;
        }
    }

    /// Reads to the end of the run of the given kind that starts at the
    /// reading position.
    fn skip(&mut self, run: Run)
        ensures
            final(self)@ == old(self)@.at(run_end(old(self)@.source, old(self)@.current, run)),
            final(self)@.wf(),
    {
        proof {
            use_type_invariant(&*self);
        }
        while !self.is_at_end() && takes(&run, self.source[self.current])
            invariant
                self.start <= self.current <= self.source.len(),
                self@ == old(self)@.at(self.current as int),
                run_end(self.source@, self.current as int, run) == run_end(
                    old(self)@.source,
                    old(self)@.current,
                    run,
                ),
            decreases self.source@.len() - self.current,
        {
            self.current += 1;
        }
    }

    /// Scans a string literal whose opening quote has been read.
    fn string(&mut self) -> (res: Result<Token, ScanError>)
        ensures
            (final(self)@, scanned(res)) == old(self)@.string(),
            final(self)@.wf(),
    {
        proof {
            use_type_invariant(&*self);
        }
        let ghost end = run_end(self.source@, self.current as int, Run::Text);
        while self.peek() != '"' && !self.is_at_end()
            invariant
                self.start <= self.current <= self.source.len(),
                old(self).current <= self.current,
                self.source@ == old(self).source@,
                self.start == old(self).start,
                run_end(self.source@, self.current as int, Run::Text) == end,
                self.line == line_plus(
                    old(self).line,
                    newlines(self.source@, old(self).current as int, self.current as int),
                ),
            decreases self.source@.len() - self.current,
        {
            if self.peek() == '\n' {
                self.next_line();
            }
            let _ = self.advance();
        }
        if self.is_at_end() {
            return Err(ScanError { message: String::from_str("Unterminated String"), line: self.line });
        }
        let _ = self.advance();
        self.build_token_value(TokenType::String)
    }

    /// Scans a number literal whose first digit has been read.
    fn number(&mut self) -> (res: Result<Token, ScanError>)
        ensures
            (final(self)@, scanned(res)) == old(self)@.number(),
            final(self)@.wf(),
    {
        self.skip(Run::Digits);
        if self.peek() == '.' && is_decimal_digit(self.peek_next()) {
            let _ = self.advance();
            self.skip(Run::Digits);
        }
        self.build_token_value(TokenType::Number)
    }

    /// Reads the rest of an identifier and returns its text.
    fn identifier_str(&mut self) -> (res: String)
        ensures
            final(self)@ == old(self)@.at(
                run_end(old(self)@.source, old(self)@.current, Run::Word),
            ),
            final(self)@.wf(),
            res@ == final(self)@.lexeme(),
    {
        self.skip(Run::Word);
        proof {
            use_type_invariant(&*self);
        }
        string_of(&self.source, self.start, self.current)
    }

    /// Scans an identifier or a keyword whose first character has been read.
    fn identifier_or_keyword(&mut self) -> (res: Result<Token, ScanError>)
        ensures
            (final(self)@, scanned(res)) == old(self)@.identifier_or_keyword(),
            final(self)@.wf(),
    {
        let id = self.identifier_str();
        let token_type = match keyword_of(id.as_str()) {
            Some(token_type) => token_type,
            None => TokenType::Identifier,
        };
        Ok(Token::new(token_type, id, self.line))
    }

    /// Reads a block comment whose opening has been read, nested comments
    /// included.
    fn multiline_comment(&mut self) -> (res: Result<(), ScanError>)
        ensures
            final(self)@ == old(self)@.at(
                comment_end(old(self)@.source, old(self)@.current, 1).0,
            ),
            match res {
                Ok(()) => comment_end(old(self)@.source, old(self)@.current, 1).1,
                Err(error) => {
                    &&& !comment_end(old(self)@.source, old(self)@.current, 1).1
                    &&& error@ == (ScanErrorView {
                        message: "Unterminated Multiline Comment"@,
                        line: old(self)@.line,
                    })
                },
            },
            final(self)@.wf(),
    {
        proof {
            use_type_invariant(&*self);
        }
        let mut nesting: usize = 1;
        while nesting > 0
            invariant
                self.start <= self.current <= self.source.len(),
                self@ == old(self)@.at(self.current as int),
                nesting <= self.current + 1,
                comment_end(self.source@, self.current as int, nesting as nat) == comment_end(
                    old(self)@.source,
                    old(self)@.current,
                    1,
                ),
            decreases self.source@.len() - self.current,
        {
            if self.peek() == '\0' {
                return Err(
                    ScanError {
                        message: String::from_str("Unterminated Multiline Comment"),
                        line: self.line,
                    },
                );
            }
            if self.peek() == '/' && self.peek_next() == '*' {
                let _ = self.advance();
                let _ = self.advance();
                nesting += 1;
                continue ;
            }
            if self.peek() == '*' && self.peek_next() == '/' {
                let _ = self.advance();
                let _ = self.advance();
                nesting -= 1;
                continue ;
            }
            let _ = self.advance();
        }
        Ok(())
    }

    /// Whether `character` may continue an identifier.
    fn is_identifier(character: char) -> (res: bool)
        ensures
            res == is_identifier_char(character),
    {
        character.is_alphanumeric() || character == '_'
    }

    /// The token of the given category that ends at the reading position.
    fn build_token(&mut self, token_type: TokenType) -> (res: Result<Token, ScanError>)
        ensures
            (final(self)@, scanned(res)) == old(self)@.emit(token_type),
            final(self)@.wf(),
    {
        self.build_token_value(token_type)
    }

    /// The token of the given category that ends at the reading position,
    /// with the text it was scanned from.
    fn build_token_value(&mut self, token_type: TokenType) -> (res: Result<Token, ScanError>)
        ensures
            (final(self)@, scanned(res)) == old(self)@.emit(token_type),
            final(self)@.wf(),
    {
        proof {
            use_type_invariant(&*self);
        }
        let lexeme = string_of(&self.source, self.start, self.current);
        Ok(Token::new(token_type, lexeme, self.line))
    }
}

/// The texts of the number literals that the scanner finds from state `s` on,
/// in the order in which it finds them.
pub open spec fn number_lexemes(s: ScannerView) -> Seq<Seq<char>>
    decreases s.remaining(),
{
    let (next, found) = s.scan_token();
    if next.remaining() < s.remaining() {
        match found {
            Ok(token) => if token.token_type == TokenType::Number {
                seq![token.lexeme] + number_lexemes(next)
            } else {
                number_lexemes(next)
            },
            Err(_) => number_lexemes(next),
        }
    } else {
        Seq::empty()
    }
}

/// The views of a list of strings.
pub open spec fn texts(strings: Seq<String>) -> Seq<Seq<char>> {
    strings.map_values(|s: String| s@)
}

/// The texts of the number literals of `source`, in order: what a table of
/// number values has to cover for `source` to compile.
pub fn number_literals(source: String) -> (res: Vec<String>)
    ensures
        texts(res@) == number_lexemes(ScannerView::begin(source@)),
{
    let mut scanner = Scanner::new(source);
    let mut found: Vec<String> = Vec::new();
    assert(texts(found@) =~= Seq::<Seq<char>>::empty());
    loop
        invariant
            scanner@.wf(),
            texts(found@) + number_lexemes(scanner@) == number_lexemes(
                ScannerView::begin(source@),
            ),
        decreases scanner@.remaining(),
    {
        let ghost before = scanner@;
        let ghost collected = texts(found@);
        let at_end = scanner.is_at_end();
        let scanned = scanner.scan_token();
        proof {
            lemma_scan_token(before);
        }
        if at_end {
            assert(texts(found@) + Seq::<Seq<char>>::empty() =~= texts(found@));
            return found;
        }
        match scanned {
            Ok(token) => {
                if token.token_type == TokenType::Number {
                    found.push(token.lexeme);
                    assert(texts(found@) =~= collected + seq![token@.lexeme]);
                    assert(collected + (seq![token@.lexeme] + number_lexemes(scanner@))
                        =~= texts(found@) + number_lexemes(scanner@));
                } else if token.token_type == TokenType::Eof {
                    assert(scanner@.is_at_end());
                    assert(scanner@.scan_token().0.remaining() == 0);
                    assert(number_lexemes(scanner@) =~= Seq::<Seq<char>>::empty());
                    assert(texts(found@) + Seq::<Seq<char>>::empty() =~= texts(found@));
                    return found;
                }
            },
            Err(_) => {},
        }
    }
}

/// Decides [`is_digit`].
pub fn is_decimal_digit(c: char) -> (res: bool)
    ensures
        res == is_digit(c),
{
    '0' <= c && c <= '9'
}

/// Decides [`Run::takes`].
fn takes(run: &Run, c: char) -> (res: bool)
    ensures
        res == run.takes(c),
{
    match run {
        Run::Line => c != '\n',
        Run::Text => c != '"',
        Run::Digits => is_decimal_digit(c),
        Run::Word => Scanner::is_identifier(c),
    }
}

/// Whether `text` is exactly `word`.
fn spells(text: &str, word: &str) -> (res: bool)
    ensures
        res == (text@ == word@),
{
    let len = text.unicode_len();
    if len != word.unicode_len() {
        return false;
    }
    let mut index: usize = 0;
    while index < len
        invariant
            len == text@.len(),
            len == word@.len(),
            index <= len,
            forall|i: int| 0 <= i < index ==> text@[i] == word@[i],
        decreases len - index,
    {
        if text.get_char(index) != word.get_char(index) {
            return false;
        }
        index += 1;
    }
    assert(text@ =~= word@);
    true
}

/// Computes [`keyword`].
pub fn keyword_of(text: &str) -> (res: Option<TokenType>)
    ensures
        res == keyword(text@),
{
    if spells(text, "and") {
        Some(TokenType::And)
    } else if spells(text, "class") {
        Some(TokenType::Class)
    } else if spells(text, "else") {
        Some(TokenType::Else)
    } else if spells(text, "false") {
        Some(TokenType::False)
    } else if spells(text, "for") {
        Some(TokenType::For)
    } else if spells(text, "fun") {
        Some(TokenType::Fun)
    } else if spells(text, "if") {
        Some(TokenType::If)
    } else if spells(text, "nil") {
        Some(TokenType::Nil)
    } else if spells(text, "or") {
        Some(TokenType::Or)
    } else if spells(text, "print") {
        Some(TokenType::Print)
    } else if spells(text, "return") {
        Some(TokenType::Return)
    } else if spells(text, "super") {
        Some(TokenType::Super)
    } else if spells(text, "this") {
        Some(TokenType::This)
    } else if spells(text, "true") {
        Some(TokenType::True)
    } else if spells(text, "var") {
        Some(TokenType::Var)
    } else if spells(text, "while") {
        Some(TokenType::While)
    } else {
        None
    }
}

} // verus!
