//! The grammar: declarations, statements and expressions, compiled as they
//! are parsed.

use vstd::prelude::*;
use crate::chunk::{Chunk, ChunkView, OpCode};
use crate::compiler::model::{NumberLiteralView, ParserView, StateView, Unit, MAX_SCOPE_DEPTH};
use crate::compiler::parser::{number_views, unit, NumberLiteral, Parser, ParserState};
use crate::compiler::rules::{ParseFn, ParseRule, Precedence};
use crate::token::TokenType;

verus! {

impl Parser {
    /// A use of the variable `name`: an assignment or a read.
    pub(crate) fn named_variable(&mut self, name: String, can_assign: bool, parser_state: &mut ParserState)
        requires
            unit(old(self), old(parser_state)).sound(),
        ensures
            unit(final(self), final(parser_state)) == unit(
                old(self),
                old(parser_state),
            ).named_variable(name@, can_assign),
            unit(final(self), final(parser_state)).continues(unit(old(self), old(parser_state))),
            final(parser_state)@.scope_depth == old(parser_state)@.scope_depth,
        decreases unit(old(self), old(parser_state)).measure(), 20nat,
    {
        reveal(Unit::resolve_local);
        let resolved = self.resolve_local(&name, parser_state.compiler());
        let (get_op, set_op, arg): (u8, u8, u8) = match resolved {
            Some(slot) => (OpCode::OpGetLocal.to_byte(), OpCode::OpSetLocal.to_byte(), slot),
            None => {
                let index = self.identifier_constant(name, parser_state);
                (OpCode::OpGetGlobal.to_byte(), OpCode::OpSetGlobal.to_byte(), index)
            },
        };
        if can_assign && self.match_(TokenType::Equal) {
            self.expression(parser_state);
            self.emit_bytes(set_op, arg, parser_state);
        } else {
            self.emit_bytes(get_op, arg, parser_state);
        }
    }

    /// An identifier has been consumed: a use of the variable it names.
    pub(crate) fn variable(&mut self, can_assign: bool, parser_state: &mut ParserState)
        requires
            unit(old(self), old(parser_state)).sound(),
        ensures
            unit(final(self), final(parser_state)) == unit(old(self), old(parser_state)).variable(
                can_assign,
            ),
            unit(final(self), final(parser_state)).continues(unit(old(self), old(parser_state))),
            final(parser_state)@.scope_depth == old(parser_state)@.scope_depth,
        decreases unit(old(self), old(parser_state)).measure(), 21nat,
    {
        let name = self.previous_lexeme();
        self.named_variable(name, can_assign, parser_state);
    }

    /// A `(` has been consumed: an expression and the `)` that closes it.
    pub(crate) fn grouping(&mut self, can_assign: bool, parser_state: &mut ParserState)
        requires
            unit(old(self), old(parser_state)).sound(),
        ensures
            unit(final(self), final(parser_state)) == unit(old(self), old(parser_state)).grouping(),
            unit(final(self), final(parser_state)).continues(unit(old(self), old(parser_state))),
            final(parser_state)@.scope_depth == old(parser_state)@.scope_depth,
        decreases unit(old(self), old(parser_state)).measure(), 20nat,
    {
        self.expression(parser_state);
        self.consume(TokenType::RightParen, "Expect ')' after expression.");
    }

    /// A unary operator has been consumed: its operand, then its code.
    pub(crate) fn unary(&mut self, can_assign: bool, parser_state: &mut ParserState)
        requires
            unit(old(self), old(parser_state)).sound(),
        ensures
            unit(final(self), final(parser_state)) == unit(old(self), old(parser_state)).unary(),
            unit(final(self), final(parser_state)).continues(unit(old(self), old(parser_state))),
            final(parser_state)@.scope_depth == old(parser_state)@.scope_depth,
        decreases unit(old(self), old(parser_state)).measure(), 20nat,
    {
        reveal(Unit::emit_unary);
        let operator_type = self.previous_type();
        self.parse_precedence(Precedence::Unary, parser_state);
        match operator_type {
            TokenType::Minus => self.emit(OpCode::OpNegate, parser_state),
            TokenType::Bang => self.emit(OpCode::OpNot, parser_state),
            _ => {},
        };
    }

    /// A binary operator has been consumed: its right operand, then its code.
    pub(crate) fn binary(&mut self, can_assign: bool, parser_state: &mut ParserState)
        requires
            unit(old(self), old(parser_state)).sound(),
        ensures
            unit(final(self), final(parser_state)) == unit(old(self), old(parser_state)).binary(),
            unit(final(self), final(parser_state)).continues(unit(old(self), old(parser_state))),
            final(parser_state)@.scope_depth == old(parser_state)@.scope_depth,
        decreases unit(old(self), old(parser_state)).measure(), 20nat,
    {
        reveal(Unit::emit_binary);
        let operator_type = self.previous_type();
        let parse_rule = ParseRule::get_rule(&operator_type);
        self.parse_precedence(parse_rule.precedence.greater(), parser_state);

        match operator_type {
            TokenType::BangEqual => self.emit_bytes(OpCode::OpEqual.to_byte(), OpCode::OpNot.to_byte(), parser_state),
            TokenType::EqualEqual => self.emit(OpCode::OpEqual, parser_state),
            TokenType::Greater => self.emit(OpCode::OpGreater, parser_state),
            TokenType::GreaterEqual => self.emit_bytes(OpCode::OpLess.to_byte(), OpCode::OpNot.to_byte(), parser_state),
            TokenType::Less => self.emit(OpCode::OpLess, parser_state),
            TokenType::LessEqual => self.emit_bytes(OpCode::OpGreater.to_byte(), OpCode::OpNot.to_byte(), parser_state),
            TokenType::Plus => self.emit(OpCode::OpAdd, parser_state),
            TokenType::Minus => self.emit(OpCode::OpSubtract, parser_state),
            TokenType::Star => self.emit(OpCode::OpMultiply, parser_state),
            TokenType::Slash => self.emit(OpCode::OpDivide, parser_state),
            _ => {},
        };
    }

    /// Calls the handler for the token consumed last.
    pub(crate) fn dispatch(&mut self, handler: ParseFn, can_assign: bool, parser_state: &mut ParserState)
        requires
            unit(old(self), old(parser_state)).sound(),
        ensures
            unit(final(self), final(parser_state)) == unit(old(self), old(parser_state)).prefix(
                handler,
                can_assign,
            ),
            unit(final(self), final(parser_state)).continues(unit(old(self), old(parser_state))),
            final(parser_state)@.scope_depth == old(parser_state)@.scope_depth,
        decreases unit(old(self), old(parser_state)).measure(), 22nat,
    {
        match handler {
            ParseFn::Grouping => self.grouping(can_assign, parser_state),
            ParseFn::Unary => self.unary(can_assign, parser_state),
            ParseFn::Binary => self.binary(can_assign, parser_state),
            ParseFn::Variable => self.variable(can_assign, parser_state),
            ParseFn::String => self.string(can_assign, parser_state),
            ParseFn::Number => self.number(can_assign, parser_state),
            ParseFn::Literal => self.literal(can_assign, parser_state),
        }
    }

    /// Compiles an expression whose operators all bind at least as tightly as
    /// `precedence`.
    pub(crate) fn parse_precedence(&mut self, precedence: Precedence, parser_state: &mut ParserState)
        requires
            unit(old(self), old(parser_state)).sound(),
            precedence.level() >= 1,
        ensures
            unit(final(self), final(parser_state)) == unit(
                old(self),
                old(parser_state),
            ).parse_precedence(precedence),
            unit(final(self), final(parser_state)).continues(unit(old(self), old(parser_state))),
            unit(old(self), old(parser_state)).next_type() != TokenType::Eof ==> unit(
                final(self),
                final(parser_state),
            ).measure() < unit(old(self), old(parser_state)).measure(),
            final(parser_state)@.scope_depth == old(parser_state)@.scope_depth,
        decreases unit(old(self), old(parser_state)).measure(), 6nat,
    {
        let ghost start = unit(self, parser_state);
        self.advance();
        let parse_rule = ParseRule::get_rule(&self.previous_type());
        let prefix_rule = match parse_rule.prefix {
            None => {
                self.error("Expect expression.");
                return ;
            },
            Some(rule) => rule,
        };

        let can_assign = precedence.at_most(Precedence::Assignment);
        self.dispatch(prefix_rule, can_assign, parser_state);

        let ghost operand = unit(self, parser_state);
        while precedence.at_most(ParseRule::get_rule(&self.current_type()).precedence)
            invariant
                precedence.level() >= 1,
                start == unit(old(self), old(parser_state)),
                start.sound(),
                unit(self, parser_state).sound(),
                unit(self, parser_state).continues(start),
                unit(self, parser_state).measure() < start.measure(),
                unit(self, parser_state).infix_loop(precedence) == operand.infix_loop(precedence),
                parser_state@.scope_depth == start.state.scope_depth,
            decreases unit(self, parser_state).measure(),
        {
            self.advance();
            match ParseRule::get_rule(&self.previous_type()).infix {
                Some(ParseFn::Binary) => self.binary(can_assign, parser_state),
                _ => {},
            }
        }

        if can_assign && self.match_(TokenType::Equal) {
            self.error("Invalid assignment target.");
        }
    }

    /// Compiles an expression.
    pub(crate) fn expression(&mut self, parser_state: &mut ParserState)
        requires
            unit(old(self), old(parser_state)).sound(),
        ensures
            unit(final(self), final(parser_state)) == unit(
                old(self),
                old(parser_state),
            ).expression(),
            unit(final(self), final(parser_state)).continues(unit(old(self), old(parser_state))),
            unit(old(self), old(parser_state)).next_type() != TokenType::Eof ==> unit(
                final(self),
                final(parser_state),
            ).measure() < unit(old(self), old(parser_state)).measure(),
            final(parser_state)@.scope_depth == old(parser_state)@.scope_depth,
        decreases unit(old(self), old(parser_state)).measure(), 7nat,
    {
        self.parse_precedence(Precedence::Assignment, parser_state);
    }

    /// `{` has been consumed: the declarations of the block and its `}`.
    pub(crate) fn block(&mut self, parser_state: &mut ParserState)
        requires
            unit(old(self), old(parser_state)).sound(),
        ensures
            unit(final(self), final(parser_state)) == unit(old(self), old(parser_state)).block(),
            unit(final(self), final(parser_state)).continues(unit(old(self), old(parser_state))),
            final(parser_state)@.scope_depth == old(parser_state)@.scope_depth,
        decreases unit(old(self), old(parser_state)).measure(), 12nat,
    {
        let ghost start = unit(self, parser_state);
        while !self.check(TokenType::RightBrace) && !self.check(TokenType::Eof)
            invariant
                start == unit(old(self), old(parser_state)),
                start.sound(),
                unit(self, parser_state).sound(),
                unit(self, parser_state).continues(start),
                unit(self, parser_state).block_items() == start.block_items(),
                parser_state@.scope_depth == start.state.scope_depth,
            decreases unit(self, parser_state).measure(),
        {
            self.declaration(parser_state);
        }

        self.consume(TokenType::RightBrace, "Expect '}' after a block.");
    }

    /// `{` has been consumed: a block in a scope of its own.
    pub(crate) fn scoped_block(&mut self, parser_state: &mut ParserState)
        requires
            unit(old(self), old(parser_state)).sound(),
        ensures
            unit(final(self), final(parser_state)) == unit(
                old(self),
                old(parser_state),
            ).scoped_block(),
            unit(final(self), final(parser_state)).continues(unit(old(self), old(parser_state))),
            final(parser_state)@.scope_depth == old(parser_state)@.scope_depth,
        decreases unit(old(self), old(parser_state)).measure(), 13nat,
    {
        if parser_state.scope_depth() < MAX_SCOPE_DEPTH {
            self.begin_scope(parser_state);
            self.block(parser_state);
            self.end_scope(parser_state);
        } else {
            self.error("Too many nested blocks.");
            self.block(parser_state);
        }
    }

    /// `var` has been consumed: the rest of a variable declaration.
    pub(crate) fn var_declaration(&mut self, parser_state: &mut ParserState)
        requires
            unit(old(self), old(parser_state)).sound(),
        ensures
            unit(final(self), final(parser_state)) == unit(
                old(self),
                old(parser_state),
            ).var_declaration(),
            unit(final(self), final(parser_state)).continues(unit(old(self), old(parser_state))),
            final(parser_state)@.scope_depth == old(parser_state)@.scope_depth,
        decreases unit(old(self), old(parser_state)).measure(), 9nat,
    {
        let global = self.parse_variable(parser_state, "Expect variable name.");

        if self.match_(TokenType::Equal) {
            self.expression(parser_state);
        } else {
            self.emit(OpCode::OpNil, parser_state);
        }

        self.consume(TokenType::Semicolon, "Expect ';' after variable declaration.");

        self.define_variable(global, parser_state);
    }

    /// An expression used as a statement.
    pub(crate) fn expression_statement(&mut self, parser_state: &mut ParserState)
        requires
            unit(old(self), old(parser_state)).sound(),
        ensures
            unit(final(self), final(parser_state)) == unit(
                old(self),
                old(parser_state),
            ).expression_statement(),
            unit(final(self), final(parser_state)).continues(unit(old(self), old(parser_state))),
            unit(old(self), old(parser_state)).next_type() != TokenType::Eof ==> unit(
                final(self),
                final(parser_state),
            ).measure() < unit(old(self), old(parser_state)).measure(),
            final(parser_state)@.scope_depth == old(parser_state)@.scope_depth,
        decreases unit(old(self), old(parser_state)).measure(), 8nat,
    {
        self.expression(parser_state);
        self.consume(TokenType::Semicolon, "Expect ';' after expression");
        self.emit(OpCode::OpPop, parser_state);
    }

    /// `print` has been consumed: the rest of a print statement.
    pub(crate) fn print_statement(&mut self, parser_state: &mut ParserState)
        requires
            unit(old(self), old(parser_state)).sound(),
        ensures
            unit(final(self), final(parser_state)) == unit(
                old(self),
                old(parser_state),
            ).print_statement(),
            unit(final(self), final(parser_state)).continues(unit(old(self), old(parser_state))),
            final(parser_state)@.scope_depth == old(parser_state)@.scope_depth,
        decreases unit(old(self), old(parser_state)).measure(), 8nat,
    {
        self.expression(parser_state);
        self.consume(TokenType::Semicolon, "Expect ';' after value");
        self.emit(OpCode::OpPrint, parser_state);
    }

    /// A declaration: a variable declaration or a statement, and recovery
    /// from the errors found in it.
    pub(crate) fn declaration(&mut self, parser_state: &mut ParserState)
        requires
            unit(old(self), old(parser_state)).sound(),
        ensures
            unit(final(self), final(parser_state)) == unit(
                old(self),
                old(parser_state),
            ).declaration(),
            unit(final(self), final(parser_state)).continues(unit(old(self), old(parser_state))),
            unit(old(self), old(parser_state)).next_type() != TokenType::Eof ==> unit(
                final(self),
                final(parser_state),
            ).measure() < unit(old(self), old(parser_state)).measure(),
            final(parser_state)@.scope_depth == old(parser_state)@.scope_depth,
        decreases unit(old(self), old(parser_state)).measure(), 10nat,
    {
        if self.match_(TokenType::Var) {
            self.var_declaration(parser_state);
        } else {
            self.statement(parser_state);
        }

        if self.in_panic() {
            self.synchronize();
        }
    }

    /// A statement: a print statement, a block, or an expression statement.
    pub(crate) fn statement(&mut self, parser_state: &mut ParserState)
        requires
            unit(old(self), old(parser_state)).sound(),
        ensures
            unit(final(self), final(parser_state)) == unit(
                old(self),
                old(parser_state),
            ).statement(),
            unit(final(self), final(parser_state)).continues(unit(old(self), old(parser_state))),
            unit(old(self), old(parser_state)).next_type() != TokenType::Eof ==> unit(
                final(self),
                final(parser_state),
            ).measure() < unit(old(self), old(parser_state)).measure(),
            final(parser_state)@.scope_depth == old(parser_state)@.scope_depth,
        decreases unit(old(self), old(parser_state)).measure(), 9nat,
    {
        if self.match_(TokenType::Print) {
            self.print_statement(parser_state);
        } else if self.match_(TokenType::LeftBrace) {
            self.scoped_block(parser_state);
        } else {
            self.expression_statement(parser_state);
        }
    }
}


impl Parser {
    /// Compiles the source that the parser was made for, and appends the code
    /// to `chunk`.
    ///
    /// `numbers` gives the value of every number literal of the source, by
    /// the literal's text; a literal that it lacks is reported as an error.
    /// The whole source is parsed even after an error, so that several errors
    /// can be reported; they are kept in [`Parser::diagnostics`]. The result
    /// is `Ok` exactly when no error was found, and only then is the chunk
    /// fit to run.
    pub fn compile(&mut self, chunk: &mut Chunk, numbers: &Vec<NumberLiteral>) -> (res: Result<
        (),
        (),
    >)
        ensures
            final(self)@ == compiled(old(self)@, old(chunk)@, number_views(numbers@)).parser,
            final(chunk)@ == compiled(old(self)@, old(chunk)@, number_views(numbers@)).state.chunk,
            res is Ok <==> !final(self)@.had_error,
            old(self)@.wf() ==> final(self)@.wf(),
            old(chunk)@.wf() ==> final(chunk)@.wf(),
    {
        let mut owned = Chunk::new();
        core::mem::swap(chunk, &mut owned);
        let mut parser_state = ParserState::new(owned, numbers);
        let ghost begun = unit(self, &parser_state);
        self.advance();
        let ghost start = unit(self, &parser_state);
        let mut done = self.match_(TokenType::Eof);
        while !done
            invariant
                unit(self, &parser_state).sound(),
                unit(self, &parser_state).continues(begun),
                if done {
                    unit(self, &parser_state) == start.declarations().advance()
                } else {
                    &&& unit(self, &parser_state).declarations() == start.declarations()
                    &&& unit(self, &parser_state).next_type() != TokenType::Eof
                },
            decreases unit(self, &parser_state).measure(),
        {
            reveal_with_fuel(Unit::declarations, 2);
            self.declaration(&mut parser_state);
            done = self.match_(TokenType::Eof);
        }
        self.consume(TokenType::Eof, "Expected end of expression");
        self.emit_return(&mut parser_state);
        let mut written = parser_state.into_chunk();
        core::mem::swap(chunk, &mut written);
        if self.had_error() {
            Err(())
        } else {
            Ok(())
        }
    }
}

/// The state in which compiling ends, for a parser in state `parser` that
/// writes to `chunk`.
pub open spec fn compiled(parser: ParserView, chunk: ChunkView, numbers: Seq<NumberLiteralView>)
    -> Unit {
    Unit { parser, state: StateView::begin(chunk, numbers) }.compile()
}

} // verus!
