//! Why the compiler always comes to an end.
//!
//! Every step of the compiler leaves no more to parse than it found, and the
//! steps that are repeated leave less. So the comparisons of
//! [`Unit::measure`] that guard the recursion in the definitions of the steps
//! never fail on a state whose scanner is within its source: the definitions
//! say what they seem to say.

use vstd::prelude::*;
use crate::chunk::OpCode;
use crate::compiler::model::{
    lemma_advance, lemma_pop_locals, lemma_synchronize, ParserView, StateView, Unit,
    MAX_SCOPE_DEPTH,
};
use crate::compiler::rules::{is_binary_operator, precedence_of, prefix_of, ParseFn, Precedence};
use crate::token::TokenType;
use crate::value::ValueView;

verus! {

/// Reporting an error moves nothing.
pub proof fn lemma_error_continues(u: Unit, message: Seq<char>)
    ensures
        u.error(message).continues(u),
        u.error(message).state == u.state,
        u.error(message).measure() == u.measure(),
{
    reveal(ParserView::error_at);
    reveal(ParserView::report);
}

/// Consuming a token, or failing to, leaves no more to parse.
pub proof fn lemma_consume_continues(u: Unit, token_type: TokenType, message: Seq<char>)
    requires
        u.sound(),
    ensures
        u.consume(token_type, message).continues(u),
        u.consume(token_type, message).state == u.state,
        u.advance().continues(u),
        u.advance().state == u.state,
        u.next_type() != TokenType::Eof ==> u.advance().measure() < u.measure(),
        u.advance().parser.previous == u.parser.current,
{
    reveal(ParserView::consume);
    reveal(ParserView::error_at);
    reveal(ParserView::report);
    lemma_advance(u.parser);
}

/// Emitting code reads no token and keeps the chunk well formed.
pub proof fn lemma_emit_continues(u: Unit, first: u8, second: u8)
    ensures
        u.emit_byte(first).continues(u),
        u.emit_byte(first).parser == u.parser,
        u.emit_byte(first).state.scope_depth == u.state.scope_depth,
        u.emit_bytes(first, second).continues(u),
        u.emit_bytes(first, second).parser == u.parser,
        u.emit_bytes(first, second).state.scope_depth == u.state.scope_depth,
{
    reveal(Unit::emit_byte);
}

/// Adding a constant reads no token and keeps the chunk well formed.
pub proof fn lemma_constant_continues(u: Unit, value: ValueView, name: Seq<char>)
    ensures
        u.make_constant(value).0.continues(u),
        u.emit_constant(value).continues(u),
        u.identifier_constant(name).0.continues(u),
        u.make_constant(value).0.state.scope_depth == u.state.scope_depth,
        u.emit_constant(value).state.scope_depth == u.state.scope_depth,
        u.identifier_constant(name).0.state.scope_depth == u.state.scope_depth,
{
    reveal(Unit::make_constant);
    reveal(Unit::emit_constant);
    reveal(Unit::identifier_constant);
    reveal(Unit::emit_byte);
    reveal(ParserView::error_at);
    reveal(ParserView::report);
}

/// The handlers of literals read no token.
pub proof fn lemma_literal_continues(u: Unit)
    ensures
        u.number().continues(u),
        u.string().continues(u),
        u.literal().continues(u),
        u.number().state.scope_depth == u.state.scope_depth,
        u.string().state.scope_depth == u.state.scope_depth,
        u.literal().state.scope_depth == u.state.scope_depth,
{
    reveal(Unit::number);
    reveal(Unit::string);
    reveal(Unit::literal);
    lemma_error_continues(u, "Number literal without a value."@);
    lemma_constant_continues(u, ValueView::Nil, Seq::empty());
    reveal(Unit::make_constant);
    reveal(Unit::emit_constant);
    reveal(Unit::emit_byte);
    reveal(ParserView::error_at);
    reveal(ParserView::report);
}

/// Emitting the code of an operator reads no token.
pub proof fn lemma_operator_continues(u: Unit, operator: TokenType)
    ensures
        u.emit_unary(operator).continues(u),
        u.emit_binary(operator).continues(u),
        u.emit_unary(operator).state.scope_depth == u.state.scope_depth,
        u.emit_binary(operator).state.scope_depth == u.state.scope_depth,
{
    reveal(Unit::emit_unary);
    reveal(Unit::emit_binary);
    reveal(Unit::emit_byte);
}

/// Looking a local up reads no token.
pub proof fn lemma_resolve_continues(u: Unit, name: Seq<char>)
    ensures
        u.resolve_local(name).0.continues(u),
        u.resolve_local(name).0.state == u.state,
{
    reveal(Unit::resolve_local);
    reveal(ParserView::error_at);
    reveal(ParserView::report);
}

/// Parsing the name of a variable leaves no more to parse and keeps the slots
/// of the locals within one byte.
pub proof fn lemma_parse_variable_continues(u: Unit, message: Seq<char>)
    requires
        u.sound(),
    ensures
        u.parse_variable(message).0.continues(u),
        u.parse_variable(message).0.state.scope_depth == u.state.scope_depth,
{
    reveal(Unit::parse_variable);
    reveal(Unit::declare_variable);
    reveal(Unit::add_local);
    reveal(ParserView::error_at);
    reveal(ParserView::report);
    lemma_consume_continues(u, TokenType::Identifier, message);
    let declared = u.consume(TokenType::Identifier, message).declare_variable();
    lemma_constant_continues(declared, ValueView::Nil, declared.parser.previous.lexeme);
}

/// Defining a variable reads no token.
pub proof fn lemma_define_continues(u: Unit, global: u8)
    ensures
        u.define_variable(global).continues(u),
        u.define_variable(global).state.scope_depth == u.state.scope_depth,
{
    reveal(Unit::define_variable);
    reveal(Unit::mark_initialized);
    reveal(Unit::emit_byte);
}

/// Entering and leaving a scope read no token.
pub proof fn lemma_scope_continues(u: Unit)
    ensures
        u.begin_scope().continues(u),
        u.begin_scope().parser == u.parser,
        u.state.scope_depth < MAX_SCOPE_DEPTH ==> u.begin_scope().state.scope_depth
            == u.state.scope_depth + 1,
        u.end_scope().continues(u),
        u.state.scope_depth > 0 ==> u.end_scope().state.scope_depth == u.state.scope_depth - 1,
{
    reveal(Unit::begin_scope);
    reveal(Unit::end_scope);
    lemma_pop_locals(
        Unit {
            state: StateView {
                scope_depth: (u.state.scope_depth - 1) as u8,
                ..u.state
            },
            ..u
        },
    );
}

/// A use of a variable leaves no more to parse.
pub proof fn lemma_named_variable(u: Unit, name: Seq<char>, can_assign: bool)
    requires
        u.sound(),
    ensures
        u.named_variable(name, can_assign).continues(u),
        u.named_variable(name, can_assign).state.scope_depth == u.state.scope_depth,
    decreases u.measure(), 20nat,
{
    lemma_resolve_continues(u, name);
    let (looked, slot) = u.resolve_local(name);
    let (found, get_op, set_op, arg) = match slot {
        Some(slot) => (looked, OpCode::OpGetLocal, OpCode::OpSetLocal, slot),
        None => {
            lemma_constant_continues(looked, ValueView::Nil, name);
            let (interned, index) = looked.identifier_constant(name);
            (interned, OpCode::OpGetGlobal, OpCode::OpSetGlobal, index)
        },
    };
    if can_assign && found.check(TokenType::Equal) {
        lemma_consume_continues(found, TokenType::Equal, Seq::empty());
        let assigned = found.advance();
        lemma_expression(assigned);
        lemma_emit_continues(assigned.expression(), set_op.byte(), arg);
    } else {
        lemma_emit_continues(found, get_op.byte(), arg);
    }
}

/// A grouping leaves no more to parse.
pub proof fn lemma_grouping(u: Unit)
    requires
        u.sound(),
    ensures
        u.grouping().continues(u),
        u.grouping().state.scope_depth == u.state.scope_depth,
    decreases u.measure(), 20nat,
{
    lemma_expression(u);
    lemma_consume_continues(u.expression(), TokenType::RightParen, "Expect ')' after expression."@);
}

/// A unary operation leaves no more to parse.
pub proof fn lemma_unary(u: Unit)
    requires
        u.sound(),
    ensures
        u.unary().continues(u),
        u.unary().state.scope_depth == u.state.scope_depth,
    decreases u.measure(), 20nat,
{
    lemma_parse_precedence(u, Precedence::Unary);
    lemma_operator_continues(u.parse_precedence(Precedence::Unary), u.parser.previous.token_type);
}

/// A binary operation leaves no more to parse.
pub proof fn lemma_binary(u: Unit)
    requires
        u.sound(),
    ensures
        u.binary().continues(u),
        u.binary().state.scope_depth == u.state.scope_depth,
    decreases u.measure(), 20nat,
{
    let operator = u.parser.previous.token_type;
    lemma_parse_precedence(u, precedence_of(operator).next());
    lemma_operator_continues(u.parse_precedence(precedence_of(operator).next()), operator);
}

/// Whatever handler is called, it leaves no more to parse.
pub proof fn lemma_prefix(u: Unit, handler: ParseFn, can_assign: bool)
    requires
        u.sound(),
    ensures
        u.prefix(handler, can_assign).continues(u),
        u.prefix(handler, can_assign).state.scope_depth == u.state.scope_depth,
    decreases u.measure(), 22nat,
{
    match handler {
        ParseFn::Grouping => lemma_grouping(u),
        ParseFn::Unary => lemma_unary(u),
        ParseFn::Binary => lemma_binary(u),
        ParseFn::Variable => lemma_named_variable(u, u.parser.previous.lexeme, can_assign),
        ParseFn::String | ParseFn::Number | ParseFn::Literal => lemma_literal_continues(u),
    }
}

/// The operators that follow an operand leave no more to parse.
pub proof fn lemma_infix_loop(u: Unit, precedence: Precedence)
    requires
        u.sound(),
    ensures
        u.infix_loop(precedence).continues(u),
        u.infix_loop(precedence).state.scope_depth == u.state.scope_depth,
    decreases u.measure(), 5nat,
{
    if is_binary_operator(u.next_type()) && precedence.level()
        <= precedence_of(u.next_type()).level() {
        lemma_consume_continues(u, TokenType::Eof, Seq::empty());
        let operator = u.advance();
        lemma_binary(operator);
        lemma_infix_loop(operator.binary(), precedence);
    }
}

/// An expression leaves no more to parse, and less unless it starts at the
/// end of input.
pub proof fn lemma_parse_precedence(u: Unit, precedence: Precedence)
    requires
        u.sound(),
    ensures
        u.parse_precedence(precedence).continues(u),
        u.parse_precedence(precedence).state.scope_depth == u.state.scope_depth,
        u.next_type() != TokenType::Eof ==> u.parse_precedence(precedence).measure()
            < u.measure(),
    decreases u.measure(), 6nat,
{
    lemma_consume_continues(u, TokenType::Eof, Seq::empty());
    let begun = u.advance();
    match prefix_of(begun.parser.previous.token_type) {
        None => {
            lemma_error_continues(begun, "Expect expression."@);
        },
        Some(handler) => {
            let can_assign = precedence.level() <= Precedence::Assignment.level();
            lemma_prefix(begun, handler, can_assign);
            let operand = begun.prefix(handler, can_assign);
            lemma_infix_loop(operand, precedence);
            let whole = operand.infix_loop(precedence);
            if can_assign && whole.check(TokenType::Equal) {
                lemma_consume_continues(whole, TokenType::Eof, Seq::empty());
                lemma_error_continues(whole.advance(), "Invalid assignment target."@);
            }
        },
    }
}

/// An expression leaves no more to parse, and less unless it starts at the
/// end of input.
pub proof fn lemma_expression(u: Unit)
    requires
        u.sound(),
    ensures
        u.expression().continues(u),
        u.expression().state.scope_depth == u.state.scope_depth,
        u.next_type() != TokenType::Eof ==> u.expression().measure() < u.measure(),
    decreases u.measure(), 7nat,
{
    lemma_parse_precedence(u, Precedence::Assignment);
}

/// The statements that end in a semicolon leave no more to parse.
pub proof fn lemma_simple_statements(u: Unit)
    requires
        u.sound(),
    ensures
        u.print_statement().continues(u),
        u.print_statement().state.scope_depth == u.state.scope_depth,
        u.expression_statement().continues(u),
        u.expression_statement().state.scope_depth == u.state.scope_depth,
        u.next_type() != TokenType::Eof ==> u.expression_statement().measure() < u.measure(),
    decreases u.measure(), 8nat,
{
    lemma_expression(u);
    let value = u.expression();
    lemma_consume_continues(value, TokenType::Semicolon, "Expect ';' after value"@);
    lemma_emit_continues(
        value.consume(TokenType::Semicolon, "Expect ';' after value"@),
        OpCode::OpPrint.byte(),
        0,
    );
    lemma_consume_continues(value, TokenType::Semicolon, "Expect ';' after expression"@);
    lemma_emit_continues(
        value.consume(TokenType::Semicolon, "Expect ';' after expression"@),
        OpCode::OpPop.byte(),
        0,
    );
}

/// A variable declaration leaves no more to parse.
pub proof fn lemma_var_declaration(u: Unit)
    requires
        u.sound(),
    ensures
        u.var_declaration().continues(u),
        u.var_declaration().state.scope_depth == u.state.scope_depth,
    decreases u.measure(), 9nat,
{
    lemma_parse_variable_continues(u, "Expect variable name."@);
    let (named, global) = u.parse_variable("Expect variable name."@);
    let valued = if named.check(TokenType::Equal) {
        lemma_consume_continues(named, TokenType::Eof, Seq::empty());
        let begun = named.advance();
        lemma_expression(begun);
        begun.expression()
    } else {
        lemma_emit_continues(named, OpCode::OpNil.byte(), 0);
        named.emit(OpCode::OpNil)
    };
    lemma_consume_continues(valued, TokenType::Semicolon, "Expect ';' after variable declaration."@);
    lemma_define_continues(
        valued.consume(TokenType::Semicolon, "Expect ';' after variable declaration."@),
        global,
    );
}

/// The declarations of a block leave no more to parse.
pub proof fn lemma_block_items(u: Unit)
    requires
        u.sound(),
    ensures
        u.block_items().continues(u),
        u.block_items().state.scope_depth == u.state.scope_depth,
    decreases u.measure(), 11nat,
{
    if !(u.check(TokenType::RightBrace) || u.check(TokenType::Eof)) {
        lemma_declaration(u);
        lemma_block_items(u.declaration());
    }
}

/// A block leaves no more to parse.
pub proof fn lemma_block(u: Unit)
    requires
        u.sound(),
    ensures
        u.block().continues(u),
        u.block().state.scope_depth == u.state.scope_depth,
    decreases u.measure(), 12nat,
{
    lemma_block_items(u);
    lemma_consume_continues(u.block_items(), TokenType::RightBrace, "Expect '}' after a block."@);
}

/// A block in a scope of its own leaves no more to parse.
pub proof fn lemma_scoped_block(u: Unit)
    requires
        u.sound(),
    ensures
        u.scoped_block().continues(u),
        u.scoped_block().state.scope_depth == u.state.scope_depth,
    decreases u.measure(), 13nat,
{
    if u.state.scope_depth < MAX_SCOPE_DEPTH {
        lemma_scope_continues(u);
        lemma_block(u.begin_scope());
        lemma_scope_continues(u.begin_scope().block());
    } else {
        lemma_error_continues(u, "Too many nested blocks."@);
        lemma_block(u.error("Too many nested blocks."@));
    }
}

/// A statement leaves no more to parse, and less unless it starts at the end
/// of input.
pub proof fn lemma_statement(u: Unit)
    requires
        u.sound(),
    ensures
        u.statement().continues(u),
        u.statement().state.scope_depth == u.state.scope_depth,
        u.next_type() != TokenType::Eof ==> u.statement().measure() < u.measure(),
    decreases u.measure(), 9nat,
{
    lemma_consume_continues(u, TokenType::Eof, Seq::empty());
    if u.check(TokenType::Print) {
        lemma_simple_statements(u.advance());
    } else if u.check(TokenType::LeftBrace) {
        lemma_scoped_block(u.advance());
    } else {
        lemma_simple_statements(u);
    }
}

/// A declaration leaves no more to parse, and less unless it starts at the
/// end of input.
pub proof fn lemma_declaration(u: Unit)
    requires
        u.sound(),
    ensures
        u.declaration().continues(u),
        u.declaration().state.scope_depth == u.state.scope_depth,
        u.next_type() != TokenType::Eof ==> u.declaration().measure() < u.measure(),
    decreases u.measure(), 10nat,
{
    lemma_consume_continues(u, TokenType::Eof, Seq::empty());
    let declared = if u.check(TokenType::Var) {
        lemma_var_declaration(u.advance());
        u.advance().var_declaration()
    } else {
        lemma_statement(u);
        u.statement()
    };
    lemma_synchronize(declared.parser);
}

/// The declarations of a program leave no more to parse, and end at the end
/// of input.
pub proof fn lemma_declarations(u: Unit)
    requires
        u.sound(),
    ensures
        u.declarations().continues(u),
        u.declarations().next_type() == TokenType::Eof,
    decreases u.measure(),
{
    if !u.check(TokenType::Eof) {
        lemma_declaration(u);
        lemma_declarations(u.declaration());
    }
}

/// Compiling keeps a well-formed chunk well formed and the error record
/// consistent: an error has been found exactly when one has been reported.
pub proof fn lemma_compile(u: Unit)
    requires
        u.sound(),
    ensures
        u.compile().continues(u),
{
    lemma_consume_continues(u, TokenType::Eof, Seq::empty());
    let begun = u.advance();
    lemma_declarations(begun);
    let declared = begun.declarations();
    lemma_consume_continues(declared, TokenType::Eof, Seq::empty());
    let ended = declared.advance();
    lemma_consume_continues(ended, TokenType::Eof, "Expected end of expression"@);
    lemma_emit_continues(
        ended.consume(TokenType::Eof, "Expected end of expression"@),
        OpCode::OpReturn.byte(),
        0,
    );
}

} // verus!
