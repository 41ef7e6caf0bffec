//! The compiler proper: reads tokens and writes bytecode.

use vstd::prelude::*;
use crate::chunk::{Chunk, OpCode, MAX_CONSTANTS};
use crate::compiler::diagnostic::{diagnostic_views, Diagnostic, Place};
use crate::compiler::model::{
    interned, lemma_advance, lemma_pop_locals, lemma_synchronize, number_value, IdentView,
    NumberLiteralView, ParserView, StateView, Unit, MAX_LOCALS, MAX_SCOPE_DEPTH, UNINITIALIZED,
};
use crate::compiler::scope::{Compiler, Local};
use crate::obj::Obj;
use crate::scanner::{lemma_scan_token, ScanError, Scanner};
use crate::token::{Token, TokenType};
use crate::value::Value;

verus! {

/// The value of a number literal: the text of the literal as it stands in the
/// source, and the bit pattern of the double-precision number it denotes.
#[derive(Debug)]
pub struct NumberLiteral {
    pub lexeme: String,
    pub bits: u64,
}

impl View for NumberLiteral {
    type V = NumberLiteralView;

    open spec fn view(&self) -> NumberLiteralView {
        NumberLiteralView { lexeme: self.lexeme@, bits: self.bits }
    }
}

/// The views of a table of number literals.
pub open spec fn number_views(numbers: Seq<NumberLiteral>) -> Seq<NumberLiteralView> {
    numbers.map_values(|n: NumberLiteral| n@)
}

/// A global name and the index of the constant that holds it.
#[derive(Debug)]
struct Ident {
    name: String,
    index: u8,
}

impl View for Ident {
    type V = IdentView;

    closed spec fn view(&self) -> IdentView {
        IdentView { name: self.name@, index: self.index }
    }
}

/// The views of a list of interned names.
closed spec fn ident_views(idents: Seq<Ident>) -> Seq<IdentView> {
    idents.map_values(|ident: Ident| ident@)
}

/// What the compiler holds besides the parser while it compiles one program:
/// the chunk being written, the global names interned so far, the scope
/// tracker, and the values of the number literals.
#[derive(Debug)]
pub struct ParserState<'a> {
    chunk: Chunk,
    global_idents: Vec<Ident>,
    current: Compiler,
    numbers: &'a Vec<NumberLiteral>,
}

impl<'a> View for ParserState<'a> {
    type V = StateView;

    closed spec fn view(&self) -> StateView {
        StateView {
            numbers: number_views(self.numbers@),
            chunk: self.chunk@,
            idents: ident_views(self.global_idents@),
            locals: self.current@.locals,
            scope_depth: self.current@.scope_depth,
        }
    }
}

impl<'a> ParserState<'a> {
    /// The state in which a compilation into `chunk` starts.
    pub(crate) fn new(chunk: Chunk, numbers: &'a Vec<NumberLiteral>) -> (res: Self)
        ensures
            res@ == StateView::begin(chunk@, number_views(numbers@)),
    {
        let res = ParserState {
            chunk,
            global_idents: Vec::new(),
            current: Compiler::new(),
            numbers,
        };
        assert(res@.idents =~= Seq::empty());
        res
    }

    /// Ends the compilation and hands the chunk out.
    pub(crate) fn into_chunk(self) -> (res: Chunk)
        ensures
            res@ == self@.chunk,
    {
        self.chunk
    }

    /// The scope tracker.
    pub(crate) fn compiler(&self) -> (res: &Compiler)
        ensures
            res@.locals == self@.locals,
            res@.scope_depth == self@.scope_depth,
    {
        &self.current
    }

    /// The depth of the innermost scope.
    pub(crate) fn scope_depth(&self) -> (res: u8)
        ensures
            res == self@.scope_depth,
    {
        self.current.depth()
    }

    /// The constant index that has been given to the global `name`, if one
    /// has.
    pub(crate) fn interned(&self, name: &String) -> (res: Option<u8>)
        ensures
            res == interned(self@.idents, name@),
    {
        let mut index = self.global_idents.len();
        assert(self@.idents.take(index as int) =~= self@.idents);
        while index > 0
            invariant
                index <= self.global_idents.len(),
                interned(self@.idents, name@) == interned(self@.idents.take(index as int), name@),
            decreases index,
        {
            index -= 1;
            proof {
                let upto = self@.idents.take(index + 1);
                assert(upto.last() == self@.idents[index as int]);
                assert(upto.drop_last() =~= self@.idents.take(index as int));
            }
            if self.global_idents[index].name == *name {
                return Some(self.global_idents[index].index);
            }
        }
        None
    }

    /// Remembers the constant index given to the global `name`.
    pub(crate) fn intern(&mut self, name: String, index: u8)
        ensures
            final(self)@ == (StateView {
                idents: old(self)@.idents.push(IdentView { name: name@, index }),
                ..old(self)@
            }),
    {
        let ident = Ident { name, index };
        self.global_idents.push(ident);
        assert(self@.idents =~= old(self)@.idents.push(ident@));
    }

    /// The value that the table gives for the number literal `lexeme`.
    pub(crate) fn number_value(&self, lexeme: &String) -> (res: Option<u64>)
        ensures
            res == number_value(self@.numbers, lexeme@),
    {
        let mut index = self.numbers.len();
        assert(self@.numbers.take(index as int) =~= self@.numbers);
        while index > 0
            invariant
                index <= self.numbers.len(),
                number_value(self@.numbers, lexeme@) == number_value(
                    self@.numbers.take(index as int),
                    lexeme@,
                ),
            decreases index,
        {
            index -= 1;
            proof {
                let upto = self@.numbers.take(index + 1);
                assert(upto.last() == self@.numbers[index as int]);
                assert(upto.drop_last() =~= self@.numbers.take(index as int));
            }
            if self.numbers[index].lexeme == *lexeme {
                return Some(self.numbers[index].bits);
            }
        }
        None
    }
}

/// The state of a compilation that a parser and what it holds make up.
pub open spec fn unit(parser: &Parser, state: &ParserState) -> Unit {
    Unit { parser: parser@, state: state@ }
}

/// The parser: the scanner, one token of lookahead, the token consumed last,
/// and the record of the errors found.
#[derive(Debug)]
pub struct Parser {
    current: Token,
    previous: Token,
    scanner: Scanner,
    had_error: bool,
    panic_mode: bool,
    diagnostics: Vec<Diagnostic>,
}

impl View for Parser {
    type V = ParserView;

    closed spec fn view(&self) -> ParserView {
        ParserView {
            scanner: self.scanner@,
            current: self.current@,
            previous: self.previous@,
            had_error: self.had_error,
            panic_mode: self.panic_mode,
            diagnostics: diagnostic_views(self.diagnostics@),
        }
    }
}

impl Parser {
    /// A parser in front of `source`.
    pub fn new(source: String) -> (res: Parser)
        ensures
            res@ == ParserView::begin(source@),
            res@.wf(),
    {
        let res = Parser {
            current: Token::default(),
            previous: Token::default(),
            scanner: Scanner::new(source),
            had_error: false,
            panic_mode: false,
            diagnostics: Vec::new(),
        };
        assert(res@.diagnostics =~= Seq::empty());
        res
    }

    /// Whether an error has been found.
    pub fn had_error(&self) -> (res: bool)
        ensures
            res == self@.had_error,
    {
        self.had_error
    }

    /// The errors reported so far, oldest first.
    pub fn diagnostics(&self) -> (res: &Vec<Diagnostic>)
        ensures
            diagnostic_views(res@) == self@.diagnostics,
    {
        &self.diagnostics
    }

    /// The category of the token consumed last.
    pub(crate) fn previous_type(&self) -> (res: TokenType)
        ensures
            res == self@.previous.token_type,
    {
        self.previous.token_type
    }

    /// The category of the token of lookahead.
    pub(crate) fn current_type(&self) -> (res: TokenType)
        ensures
            res == self@.current.token_type,
    {
        self.current.token_type
    }

    /// A copy of the text of the token consumed last.
    pub(crate) fn previous_lexeme(&self) -> (res: String)
        ensures
            res@ == self@.previous.lexeme,
    {
        self.previous.lexeme.clone()
    }

    /// Whether the parser is recovering from an error.
    pub(crate) fn in_panic(&self) -> (res: bool)
        ensures
            res == self@.panic_mode,
    {
        self.panic_mode
    }

    /// Ends the parsing and hands the reported errors out, oldest first.
    pub fn into_diagnostics(self) -> (res: Vec<Diagnostic>)
        ensures
            diagnostic_views(res@) == self@.diagnostics,
    {
        self.diagnostics
    }

    /// Records an error, unless the parser is recovering from an earlier one.
    pub(crate) fn report(&mut self, diagnostic: Diagnostic)
        ensures
            final(self)@ == old(self)@.report(diagnostic@),
            final(self)@.follows(old(self)@),
    {
        reveal(ParserView::report);
        if self.panic_mode {
            return ;
        }
        self.panic_mode = true;
        self.diagnostics.push(diagnostic);
        self.had_error = true;
        assert(self@.diagnostics =~= old(self)@.diagnostics.push(diagnostic@));
    }

    /// Reports `message` for the token consumed last.
    pub(crate) fn error(&mut self, message: &str)
        ensures
            final(self)@ == old(self)@.error(message@),
            final(self)@.follows(old(self)@),
    {
        let token = self.previous.clone();
        self.error_at(&token, true, message);
    }

    /// Reports `message` for the token of lookahead.
    pub(crate) fn error_at_current(&mut self, message: &str)
        ensures
            final(self)@ == old(self)@.error_at_current(message@),
            final(self)@.follows(old(self)@),
    {
        let token = self.current.clone();
        self.error_at(&token, false, message);
    }

    /// Reports `message` for `token`, naming the token's text where `named`
    /// asks for it.
    pub(crate) fn error_at(&mut self, token: &Token, named: bool, message: &str)
        ensures
            final(self)@ == old(self)@.error_at(token@, named, message@),
            final(self)@.follows(old(self)@),
    {
        reveal(ParserView::error_at);
        let place = if token.token_type == TokenType::Eof {
            Place::End
        } else if named {
            Place::Lexeme(token.lexeme.clone())
        } else {
            Place::Unplaced
        };
        self.report(Diagnostic { line: token.line, place, message: String::from_str(message) });
    }

    /// Reports an error of the scanner.
    pub(crate) fn scan_error(&mut self, error: ScanError)
        ensures
            final(self)@ == old(self)@.scan_error(error@),
            final(self)@.follows(old(self)@),
    {
        reveal(ParserView::scan_error);
        self.report(Diagnostic { line: error.line, place: Place::Unplaced, message: error.message });
    }

    /// Consumes the lookahead and scans the next token, reporting the errors
    /// that the scanner meets on the way.
    pub(crate) fn advance(&mut self)
        ensures
            final(self)@ == old(self)@.advance(),
            final(self)@.scanner.wf(),
            final(self)@.previous == old(self)@.current,
            final(self)@.follows(old(self)@),
            old(self)@.current.token_type != TokenType::Eof ==> final(self)@.measure() < old(
                self,
            )@.measure(),
    {
        reveal(ParserView::advance);
        loop
            invariant
                self@.scanner.wf() ==> old(self)@.scanner.wf(),
                self@.current == old(self)@.current,
                (ParserView { previous: old(self)@.current, ..self@ }).pull() == old(
                    self,
                )@.advance(),
            decreases self@.scanner.remaining(),
        {
            let ghost before = self@;
            reveal_with_fuel(ParserView::pull, 1);
            reveal(ParserView::scan_error);
            reveal(ParserView::report);
            match self.scanner.scan_token() {
                Ok(token) => {
                    let mut token = token;
                    core::mem::swap(&mut self.current, &mut token);
                    self.previous = token;
                    proof {
                        lemma_advance(old(self)@);
                    }
                    return ;
                },
                Err(e) => {
                    proof {
                        lemma_scan_token(before.scanner);
                    }
                    self.scan_error(e);
                },
            }
        }
    }

    /// Consumes the lookahead if it is of the given category; reports
    /// `message` otherwise.
    pub(crate) fn consume(&mut self, token_type: TokenType, message: &str)
        ensures
            final(self)@ == old(self)@.consume(token_type, message@),
            final(self)@.follows(old(self)@),
    {
        reveal(ParserView::consume);
        if self.current.token_type == token_type {
            self.advance();
            return ;
        }
        self.error_at_current(message);
    }

    /// Consumes the lookahead if it is of the given category, and says
    /// whether it was.
    pub(crate) fn match_(&mut self, token_type: TokenType) -> (res: bool)
        ensures
            res == old(self)@.check(token_type),
            final(self)@ == if res {
                old(self)@.advance()
            } else {
                old(self)@
            },
            final(self)@.follows(old(self)@),
            res && token_type != TokenType::Eof ==> final(self)@.measure() < old(self)@.measure(),
    {
        if !self.check(token_type) {
            return false;
        }
        self.advance();
        return true;
    }

    /// Whether the lookahead is of the given category.
    pub(crate) fn check(&self, token_type: TokenType) -> (res: bool)
        ensures
            res == self@.check(token_type),
    {
        self.current.token_type == token_type
    }

    /// Ends error recovery and skips to the next boundary: behind a
    /// semicolon, or in front of a token that starts a statement.
    pub(crate) fn synchronize(&mut self)
        requires
            old(self)@.scanner.wf(),
        ensures
            final(self)@ == old(self)@.synchronize(),
            final(self)@.follows(old(self)@),
    {
        reveal(ParserView::synchronize);
        self.panic_mode = false;
        proof {
            lemma_synchronize(old(self)@);
        }
        while self.current.token_type != TokenType::Eof
            invariant
                self@.scanner.wf(),
                self@.skip_to_boundary() == old(self)@.synchronize(),
                old(self)@.synchronize().follows(old(self)@),
            decreases self@.measure(),
        {
            reveal_with_fuel(ParserView::skip_to_boundary, 1);
            if self.previous.token_type == TokenType::Semicolon {
                return ;
            }
            match self.current.token_type {
                TokenType::Class
                | TokenType::Fun
                | TokenType::Var
                | TokenType::For
                | TokenType::If
                | TokenType::While
                | TokenType::Print
                | TokenType::Return => {
                    return ;
                },
                _ => {},
            }
            self.advance();
        }
        reveal_with_fuel(ParserView::skip_to_boundary, 1);
    }
}


impl Parser {
    /// Appends one byte of code, attributed to the line of the lookahead.
    pub(crate) fn emit_byte(&self, byte: u8, parser_state: &mut ParserState)
        ensures
            unit(self, final(parser_state)) == unit(self, old(parser_state)).emit_byte(byte),
            unit(self, final(parser_state)).continues(unit(self, old(parser_state))),
            final(parser_state)@.scope_depth == old(parser_state)@.scope_depth,
    {
        reveal(Unit::emit_byte);
        parser_state.chunk.write(byte, self.current.line);
    }

    /// Appends an opcode.
    pub(crate) fn emit(&self, op: OpCode, parser_state: &mut ParserState)
        ensures
            unit(self, final(parser_state)) == unit(self, old(parser_state)).emit(op),
            unit(self, final(parser_state)).continues(unit(self, old(parser_state))),
            final(parser_state)@.scope_depth == old(parser_state)@.scope_depth,
    {
        self.emit_byte(op.to_byte(), parser_state);
    }

    /// Appends two bytes of code.
    pub(crate) fn emit_bytes(&self, byte1: u8, byte2: u8, parser_state: &mut ParserState)
        ensures
            unit(self, final(parser_state)) == unit(self, old(parser_state)).emit_bytes(
                byte1,
                byte2,
            ),
            unit(self, final(parser_state)).continues(unit(self, old(parser_state))),
            final(parser_state)@.scope_depth == old(parser_state)@.scope_depth,
    {
        self.emit_byte(byte1, parser_state);
        self.emit_byte(byte2, parser_state);
    }

    /// Appends the instruction that ends the run.
    pub(crate) fn emit_return(&self, parser_state: &mut ParserState)
        ensures
            unit(self, final(parser_state)) == unit(self, old(parser_state)).emit(OpCode::OpReturn),
            unit(self, final(parser_state)).continues(unit(self, old(parser_state))),
    {
        self.emit(OpCode::OpReturn, parser_state);
    }

    /// Adds `constant` to the pool and returns its index. Where the pool is
    /// full, adds nothing, reports an error and returns 0.
    pub(crate) fn make_constant(&mut self, constant: Value, parser_state: &mut ParserState) -> (res: u8)
        ensures
            (unit(final(self), final(parser_state)), res) == unit(
                old(self),
                old(parser_state),
            ).make_constant(constant@),
            unit(final(self), final(parser_state)).continues(unit(old(self), old(parser_state))),
            final(parser_state)@.scope_depth == old(parser_state)@.scope_depth,
    {
        reveal(Unit::make_constant);
        if parser_state.chunk.constant_count() >= MAX_CONSTANTS {
            self.error("Too many constants in one chunk.");
            return 0;
        }
        let index = parser_state.chunk.add_constant(constant);
        return index as u8;
    }

    /// Adds `constant` to the pool and emits the instruction that loads it.
    pub(crate) fn emit_constant(&mut self, constant: Value, parser_state: &mut ParserState)
        ensures
            unit(final(self), final(parser_state)) == unit(
                old(self),
                old(parser_state),
            ).emit_constant(constant@),
            unit(final(self), final(parser_state)).continues(unit(old(self), old(parser_state))),
            final(parser_state)@.scope_depth == old(parser_state)@.scope_depth,
    {
        reveal(Unit::emit_constant);
        let constant_index = self.make_constant(constant, parser_state);
        self.emit_bytes(OpCode::OpConstant.to_byte(), constant_index, parser_state);
    }

    /// The constant index of the global `name`.
    pub(crate) fn identifier_constant(&mut self, name: String, parser_state: &mut ParserState) -> (res: u8)
        ensures
            (unit(final(self), final(parser_state)), res) == unit(
                old(self),
                old(parser_state),
            ).identifier_constant(name@),
            unit(final(self), final(parser_state)).continues(unit(old(self), old(parser_state))),
            final(parser_state)@.scope_depth == old(parser_state)@.scope_depth,
    {
        reveal(Unit::identifier_constant);
        match parser_state.interned(&name) {
            Some(index) => index,
            None => {
                let constant = Value::Obj(Box::new(Obj::Str(name.clone())));
                let ident_constant_offset = self.make_constant(constant, parser_state);
                parser_state.intern(name, ident_constant_offset);
                ident_constant_offset
            },
        }
    }

    /// The stack slot of the local variable `name`, if one is in scope.
    pub(crate) fn resolve_local(&mut self, name: &String, compiler: &Compiler) -> (res: Option<u8>)
        requires
            compiler@.wf(),
        ensures
            match crate::compiler::model::resolve(compiler@.locals, name@) {
                Some(slot) => {
                    &&& res == Some(slot as u8)
                    &&& final(self)@ == if compiler@.locals[slot].depth == UNINITIALIZED {
                        old(self)@.error("Can't read local variable in its own initializer."@)
                    } else {
                        old(self)@
                    }
                },
                None => res is None && final(self)@ == old(self)@,
            },
            final(self)@.follows(old(self)@),
    {
        match compiler.resolve(name) {
            Some((slot, initialized)) => {
                if !initialized {
                    self.error("Can't read local variable in its own initializer.");
                }
                Some(slot)
            },
            None => None,
        }
    }

    /// Adds a local variable named by the token consumed last.
    pub(crate) fn add_local(&mut self, parser_state: &mut ParserState)
        requires
            unit(old(self), old(parser_state)).sound(),
        ensures
            unit(final(self), final(parser_state)) == unit(old(self), old(parser_state)).add_local(),
            unit(final(self), final(parser_state)).continues(unit(old(self), old(parser_state))),
            final(parser_state)@.scope_depth == old(parser_state)@.scope_depth,
    {
        reveal(Unit::add_local);
        if parser_state.current.local_count() >= MAX_LOCALS {
            self.error("Too many local variables defined.");
            return ;
        }
        let local_name = self.previous.lexeme.clone();
        let _ = parser_state.current.add_local(Local::new(local_name, UNINITIALIZED));
    }

    /// Declares the variable named by the token consumed last.
    pub(crate) fn declare_variable(&mut self, parser_state: &mut ParserState)
        requires
            unit(old(self), old(parser_state)).sound(),
        ensures
            unit(final(self), final(parser_state)) == unit(
                old(self),
                old(parser_state),
            ).declare_variable(),
            unit(final(self), final(parser_state)).continues(unit(old(self), old(parser_state))),
            final(parser_state)@.scope_depth == old(parser_state)@.scope_depth,
    {
        reveal(Unit::declare_variable);
        if parser_state.current.depth() == 0 {
            return ;
        }
        if parser_state.current.declares(&self.previous.lexeme) {
            self.error("Already a variable with this name in this scope.");
        }
        self.add_local(parser_state);
    }

    /// Parses the name of a variable being declared.
    pub(crate) fn parse_variable(&mut self, parser_state: &mut ParserState, error_message: &str) -> (res: u8)
        requires
            unit(old(self), old(parser_state)).sound(),
        ensures
            (unit(final(self), final(parser_state)), res) == unit(
                old(self),
                old(parser_state),
            ).parse_variable(error_message@),
            unit(final(self), final(parser_state)).continues(unit(old(self), old(parser_state))),
            final(parser_state)@.scope_depth == old(parser_state)@.scope_depth,
    {
        reveal(Unit::parse_variable);
        self.consume(TokenType::Identifier, error_message);
        self.declare_variable(parser_state);
        if parser_state.current.depth() > 0 {
            return 0;
        }
        let token_name = self.previous.lexeme.clone();
        let constant_index = self.identifier_constant(token_name, parser_state);
        return constant_index;
    }

    /// Marks the local variable declared last as initialized.
    pub(crate) fn mark_initialized(&self, parser_state: &mut ParserState)
        ensures
            unit(self, final(parser_state)) == unit(self, old(parser_state)).mark_initialized(),
            unit(self, final(parser_state)).continues(unit(self, old(parser_state))),
            final(parser_state)@.scope_depth == old(parser_state)@.scope_depth,
    {
        reveal(Unit::mark_initialized);
        parser_state.current.mark_initialized();
    }

    /// Ends the declaration of a variable whose initial value is on the stack.
    pub(crate) fn define_variable(&mut self, global: u8, parser_state: &mut ParserState)
        ensures
            unit(final(self), final(parser_state)) == unit(
                old(self),
                old(parser_state),
            ).define_variable(global),
            final(self)@ == old(self)@,
            unit(final(self), final(parser_state)).continues(unit(old(self), old(parser_state))),
            final(parser_state)@.scope_depth == old(parser_state)@.scope_depth,
    {
        reveal(Unit::define_variable);
        if parser_state.current.depth() > 0 {
            self.mark_initialized(parser_state);
            return ;
        }
        self.emit_bytes(OpCode::OpDefineGlobal.to_byte(), global, parser_state);
    }

    /// Enters a scope.
    pub(crate) fn begin_scope(&mut self, parser_state: &mut ParserState)
        requires
            old(parser_state)@.scope_depth < MAX_SCOPE_DEPTH,
        ensures
            unit(final(self), final(parser_state)) == unit(
                old(self),
                old(parser_state),
            ).begin_scope(),
            unit(final(self), final(parser_state)).continues(unit(old(self), old(parser_state))),
            final(parser_state)@.scope_depth == old(parser_state)@.scope_depth + 1,
    {
        reveal(Unit::begin_scope);
        parser_state.current.begin_scope();
    }

    /// Leaves the innermost scope and pops its locals.
    pub(crate) fn end_scope(&mut self, parser_state: &mut ParserState)
        requires
            old(parser_state)@.scope_depth > 0,
        ensures
            unit(final(self), final(parser_state)) == unit(old(self), old(parser_state)).end_scope(),
            final(self)@ == old(self)@,
            unit(final(self), final(parser_state)).continues(unit(old(self), old(parser_state))),
            final(parser_state)@.scope_depth == old(parser_state)@.scope_depth - 1,
    {
        reveal(Unit::end_scope);
        parser_state.current.end_scope();
        let ghost begun = unit(self, parser_state);
        while parser_state.current.pop_deeper()
            invariant
                self@ == old(self)@,
                unit(self, parser_state).pop_locals() == begun.pop_locals(),
            decreases parser_state@.locals.len(),
        {
            reveal_with_fuel(Unit::pop_locals, 1);
            reveal(Unit::emit_byte);
            self.emit(OpCode::OpPop, parser_state);
        }
        reveal_with_fuel(Unit::pop_locals, 1);
        proof {
            lemma_pop_locals(begun);
        }
    }

    /// A number literal has been consumed: loads its value.
    pub(crate) fn number(&mut self, can_assign: bool, parser_state: &mut ParserState)
        ensures
            unit(final(self), final(parser_state)) == unit(old(self), old(parser_state)).number(),
            unit(final(self), final(parser_state)).continues(unit(old(self), old(parser_state))),
            final(parser_state)@.scope_depth == old(parser_state)@.scope_depth,
    {
        reveal(Unit::number);
        match parser_state.number_value(&self.previous.lexeme) {
            Some(bits) => self.emit_constant(Value::Number(bits), parser_state),
            None => self.error("Number literal without a value."),
        }
    }

    /// A string literal has been consumed: loads its text.
    pub(crate) fn string(&mut self, can_assign: bool, parser_state: &mut ParserState)
        ensures
            unit(final(self), final(parser_state)) == unit(old(self), old(parser_state)).string(),
            unit(final(self), final(parser_state)).continues(unit(old(self), old(parser_state))),
            final(parser_state)@.scope_depth == old(parser_state)@.scope_depth,
    {
        reveal(Unit::string);
        let str_len = self.previous.lexeme.as_str().unicode_len();
        let string = if str_len >= 2 {
            self.previous.lexeme.as_str().substring_char(1, str_len - 1)
        } else {
            ""
        };
        proof {
            if str_len < 2 {
                reveal_strlit("");
                assert(string@ =~= Seq::<char>::empty());
            }
        }
        let value = Value::Obj(Box::new(Obj::Str(String::from_str(string))));
        self.emit_constant(value, parser_state);
    }

    /// `nil`, `true` or `false` has been consumed: emits its instruction.
    pub(crate) fn literal(&mut self, can_assign: bool, parser_state: &mut ParserState)
        ensures
            unit(final(self), final(parser_state)) == unit(old(self), old(parser_state)).literal(),
            unit(final(self), final(parser_state)).continues(unit(old(self), old(parser_state))),
            final(parser_state)@.scope_depth == old(parser_state)@.scope_depth,
    {
        reveal(Unit::literal);
        match self.previous.token_type {
            TokenType::Nil => self.emit(OpCode::OpNil, parser_state),
            TokenType::True => self.emit(OpCode::OpTrue, parser_state),
            TokenType::False => self.emit(OpCode::OpFalse, parser_state),
            _ => {},
        };
    }
}


} // verus!
