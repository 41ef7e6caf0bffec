//! What compiling means: the compiler as a function on states.
//!
//! A compilation is a walk over the tokens of the source that appends code to
//! a chunk. Its state has two parts: the parser proper ([`ParserView`]), which
//! holds the scanner, a token of lookahead and the error record, and the
//! emitter ([`StateView`]), which holds the chunk and the variables in scope.
//! Every step of the compiler is defined here as a function from state to
//! state; the executable compiler is proved to compute these functions.
//!
//! The grammar is recursive, so the functions are too. Each recursion is
//! guarded by a comparison of [`Unit::measure`], which counts what is left of
//! the source: a step is only repeated on a state that has less left than the
//! one before. The guards never fail on a state whose scanner is within its
//! source, as the laws in the module `progress` show.

use vstd::prelude::*;
use crate::chunk::{ChunkView, OpCode, MAX_CONSTANTS};
use crate::compiler::diagnostic::{DiagnosticView, PlaceView};
use crate::compiler::rules::{is_binary_operator, precedence_of, prefix_of, ParseFn, Precedence};
use crate::scanner::{lemma_scan_token, ScanErrorView, ScannerView};
use crate::token::{TokenType, TokenView};
use crate::value::ValueView;

verus! {

/// The largest number of local variables that can be live at once: a stack
/// slot is addressed by one byte.
pub const MAX_LOCALS: usize = 256;

/// The depth that marks a local variable as declared but not yet initialized.
pub const UNINITIALIZED: u8 = 255;

/// The deepest nesting of scopes: the depths below [`UNINITIALIZED`].
pub const MAX_SCOPE_DEPTH: u8 = 254;

/// A local variable: its name and the depth of the scope that declares it.
pub struct LocalView {
    pub name: Seq<char>,
    pub depth: u8,
}

/// A global name that has been given a place in the constant pool.
pub struct IdentView {
    pub name: Seq<char>,
    pub index: u8,
}

/// The value of a number literal, by its text.
pub struct NumberLiteralView {
    pub lexeme: Seq<char>,
    pub bits: u64,
}

/// The slot of the innermost local variable called `name`, if there is one.
pub open spec fn resolve(locals: Seq<LocalView>, name: Seq<char>) -> Option<int>
    decreases locals.len(),
{
    if locals.len() == 0 {
        None
    } else if locals.last().name == name {
        Some(locals.len() - 1)
    } else {
        resolve(locals.drop_last(), name)
    }
}

/// Whether the scope at `depth`, the innermost, already declares `name`:
/// whether one of the locals on top of the list that belong to this scope, or
/// are not initialized yet, carries the name.
pub open spec fn declared_in_scope(locals: Seq<LocalView>, depth: u8, name: Seq<char>) -> bool
    decreases locals.len(),
{
    if locals.len() == 0 {
        false
    } else if locals.last().depth != UNINITIALIZED && locals.last().depth < depth {
        false
    } else {
        locals.last().name == name || declared_in_scope(locals.drop_last(), depth, name)
    }
}

/// The constant index that has been given to the global `name`, if one has.
pub open spec fn interned(idents: Seq<IdentView>, name: Seq<char>) -> Option<u8>
    decreases idents.len(),
{
    if idents.len() == 0 {
        None
    } else if idents.last().name == name {
        Some(idents.last().index)
    } else {
        interned(idents.drop_last(), name)
    }
}

/// The value that the table gives for the number literal `lexeme`, if it
/// gives one; the last entry counts where several carry the text.
pub open spec fn number_value(numbers: Seq<NumberLiteralView>, lexeme: Seq<char>) -> Option<u64>
    decreases numbers.len(),
{
    if numbers.len() == 0 {
        None
    } else if numbers.last().lexeme == lexeme {
        Some(numbers.last().bits)
    } else {
        number_value(numbers.drop_last(), lexeme)
    }
}

/// Whether a token of this category starts a statement, so that error
/// recovery can resume in front of it.
pub open spec fn starts_statement(token_type: TokenType) -> bool {
    match token_type {
        TokenType::Class
        | TokenType::Fun
        | TokenType::Var
        | TokenType::For
        | TokenType::If
        | TokenType::While
        | TokenType::Print
        | TokenType::Return => true,
        _ => false,
    }
}

/// The state of the parser proper.
pub struct ParserView {
    pub scanner: ScannerView,
    /// The token of lookahead: scanned, not yet consumed.
    pub current: TokenView,
    /// The token consumed last.
    pub previous: TokenView,
    /// Whether an error has been found since the parser was made.
    pub had_error: bool,
    /// Whether the parser is recovering from an error, and keeps quiet.
    pub panic_mode: bool,
    /// The errors reported so far, oldest first.
    pub diagnostics: Seq<DiagnosticView>,
}

impl ParserView {
    /// The parser in front of `source`, before the first token is scanned.
    pub open spec fn begin(source: Seq<char>) -> ParserView {
        ParserView {
            scanner: ScannerView::begin(source),
            current: TokenView::blank(),
            previous: TokenView::blank(),
            had_error: false,
            panic_mode: false,
            diagnostics: Seq::empty(),
        }
    }

    /// How much is left to parse: the characters not yet scanned, and one for
    /// the token of lookahead unless it is the end of input.
    pub open spec fn measure(self) -> nat {
        self.scanner.remaining() + if self.current.token_type != TokenType::Eof {
            1nat
        } else {
            0nat
        }
    }

    /// Records an error, unless the parser is recovering from an earlier one:
    /// then the error is passed over in silence.
    #[verifier::opaque]
    pub open spec fn report(self, diagnostic: DiagnosticView) -> ParserView {
        if self.panic_mode {
            self
        } else {
            ParserView {
                had_error: true,
                panic_mode: true,
                diagnostics: self.diagnostics.push(diagnostic),
                ..self
            }
        }
    }

    /// Reports `message` for `token`. The report names the end of input where
    /// the token is that, and the token's text where `named` asks for it.
    #[verifier::opaque]
    pub open spec fn error_at(self, token: TokenView, named: bool, message: Seq<char>)
        -> ParserView {
        self.report(
            DiagnosticView {
                line: token.line,
                place: if token.token_type == TokenType::Eof {
                    PlaceView::End
                } else if named {
                    PlaceView::Lexeme(token.lexeme)
                } else {
                    PlaceView::Unplaced
                },
                message,
            },
        )
    }

    /// Reports `message` for the token consumed last, by its text.
    pub open spec fn error(self, message: Seq<char>) -> ParserView {
        self.error_at(self.previous, true, message)
    }

    /// Reports `message` for the token of lookahead.
    pub open spec fn error_at_current(self, message: Seq<char>) -> ParserView {
        self.error_at(self.current, false, message)
    }

    /// Reports an error of the scanner, on the line where the scanner met it.
    #[verifier::opaque]
    pub open spec fn scan_error(self, error: ScanErrorView) -> ParserView {
        self.report(
            DiagnosticView { line: error.line, place: PlaceView::Unplaced, message: error.message },
        )
    }

    /// Scans until a token is found and makes it the lookahead. Errors of the
    /// scanner on the way are reported, and the scan goes on behind them.
    #[verifier::opaque]
    pub open spec fn pull(self) -> ParserView
        decreases self.scanner.remaining(),
    {
        let (scanner, found) = self.scanner.scan_token();
        let moved = ParserView { scanner, ..self };
        match found {
            Ok(token) => ParserView { current: token, ..moved },
            Err(error) => {
                proof {
                    reveal(ParserView::scan_error);
                    reveal(ParserView::report);
                }
                if scanner.remaining() < self.scanner.remaining() {
                    moved.scan_error(error).pull()
                } else {
                    moved.scan_error(error)
                }
            },
        }
    }

    /// Consumes the lookahead and scans the next token.
    #[verifier::opaque]
    pub open spec fn advance(self) -> ParserView {
        ParserView { previous: self.current, ..self }.pull()
    }

    /// Whether the lookahead is of the given category.
    pub open spec fn check(self, token_type: TokenType) -> bool {
        self.current.token_type == token_type
    }

    /// Consumes the lookahead if it is of the given category; reports
    /// `message` otherwise.
    #[verifier::opaque]
    pub open spec fn consume(self, token_type: TokenType, message: Seq<char>) -> ParserView {
        if self.check(token_type) {
            self.advance()
        } else {
            self.error_at_current(message)
        }
    }

    /// Whether error recovery can stop here: at the end of input, behind a
    /// semicolon, or in front of a token that starts a statement.
    pub open spec fn at_boundary(self) -> bool {
        ||| self.current.token_type == TokenType::Eof
        ||| self.previous.token_type == TokenType::Semicolon
        ||| starts_statement(self.current.token_type)
    }

    /// Consumes tokens up to the next boundary.
    #[verifier::opaque]
    pub open spec fn skip_to_boundary(self) -> ParserView
        decreases self.measure(),
    {
        if self.at_boundary() {
            self
        } else {
            let next = self.advance();
            if next.measure() < self.measure() {
                next.skip_to_boundary()
            } else {
                next
            }
        }
    }

    /// Ends error recovery: the parser speaks again, and goes on from the next
    /// boundary.
    #[verifier::opaque]
    pub open spec fn synchronize(self) -> ParserView {
        ParserView { panic_mode: false, ..self }.skip_to_boundary()
    }

    /// An error has been found exactly when one has been reported, and the
    /// parser recovers only from errors that were found.
    pub open spec fn wf(self) -> bool {
        &&& self.scanner.wf()
        &&& self.had_error == (self.diagnostics.len() > 0)
        &&& self.panic_mode ==> self.had_error
    }

    /// What holds of a parser that has read on from `before`: it reads the
    /// same source, has no more left to parse, and is as well formed as
    /// `before` was.
    pub open spec fn follows(self, before: ParserView) -> bool {
        &&& self.scanner.source == before.scanner.source
        &&& self.measure() <= before.measure()
        &&& before.scanner.wf() ==> self.scanner.wf()
        &&& before.wf() ==> self.wf()
    }
}

/// The state of the emitter.
pub struct StateView {
    /// The values of the number literals of the source, by their text.
    pub numbers: Seq<NumberLiteralView>,
    /// The chunk being written.
    pub chunk: ChunkView,
    /// The global names interned so far.
    pub idents: Seq<IdentView>,
    /// The local variables in scope, in the order of their stack slots.
    pub locals: Seq<LocalView>,
    /// The depth of the innermost scope; 0 at the top level.
    pub scope_depth: u8,
}

impl StateView {
    /// The state in which a compilation into `chunk` starts.
    pub open spec fn begin(chunk: ChunkView, numbers: Seq<NumberLiteralView>) -> StateView {
        StateView { numbers, chunk, idents: Seq::empty(), locals: Seq::empty(), scope_depth: 0 }
    }
}

/// The state of a compilation.
pub struct Unit {
    pub parser: ParserView,
    pub state: StateView,
}

impl Unit {
    /// How much is left to parse.
    pub open spec fn measure(self) -> nat {
        self.parser.measure()
    }

    /// What the compiler relies on to run: the scanner is within its source,
    /// and every local has a slot that one byte can address.
    pub open spec fn sound(self) -> bool {
        &&& self.parser.scanner.wf()
        &&& self.state.locals.len() <= MAX_LOCALS
    }

    /// What holds of a state that the compiler has reached from `before`:
    /// the parser has read on from where it was, the number literals are the
    /// same, and the state is as sound and the chunk as well formed as they
    /// were in `before`.
    pub open spec fn continues(self, before: Unit) -> bool {
        &&& self.parser.follows(before.parser)
        &&& self.state.numbers == before.state.numbers
        &&& before.sound() ==> self.sound()
        &&& before.state.chunk.wf() ==> self.state.chunk.wf()
    }

    /// The category of the token of lookahead.
    pub open spec fn next_type(self) -> TokenType {
        self.parser.current.token_type
    }

    /// Consumes the lookahead.
    pub open spec fn advance(self) -> Unit {
        Unit { parser: self.parser.advance(), ..self }
    }

    /// Whether the lookahead is of the given category.
    pub open spec fn check(self, token_type: TokenType) -> bool {
        self.parser.check(token_type)
    }

    /// Consumes the lookahead if it is of the given category; reports
    /// `message` otherwise.
    pub open spec fn consume(self, token_type: TokenType, message: Seq<char>) -> Unit {
        Unit { parser: self.parser.consume(token_type, message), ..self }
    }

    /// Reports `message` for the token consumed last.
    pub open spec fn error(self, message: Seq<char>) -> Unit {
        Unit { parser: self.parser.error(message), ..self }
    }

    /// Appends one byte of code, attributed to the line of the lookahead.
    #[verifier::opaque]
    pub open spec fn emit_byte(self, byte: u8) -> Unit {
        Unit {
            state: StateView {
                chunk: self.state.chunk.write(byte, self.parser.current.line),
                ..self.state
            },
            ..self
        }
    }

    /// Appends an opcode.
    pub open spec fn emit(self, op: OpCode) -> Unit {
        self.emit_byte(op.byte())
    }

    /// Appends two bytes of code.
    pub open spec fn emit_bytes(self, first: u8, second: u8) -> Unit {
        self.emit_byte(first).emit_byte(second)
    }

    /// Adds `value` to the constant pool and yields its index. Where the pool
    /// is full, nothing is added, an error is reported and the index is 0.
    #[verifier::opaque]
    pub open spec fn make_constant(self, value: ValueView) -> (Unit, u8) {
        if self.state.chunk.constants.len() >= MAX_CONSTANTS {
            (self.error("Too many constants in one chunk."@), 0)
        } else {
            (
                Unit {
                    state: StateView {
                        chunk: self.state.chunk.add_constant(value),
                        ..self.state
                    },
                    ..self
                },
                self.state.chunk.constants.len() as u8,
            )
        }
    }

    /// Adds `value` to the constant pool and emits the instruction that loads
    /// it.
    #[verifier::opaque]
    pub open spec fn emit_constant(self, value: ValueView) -> Unit {
        let (made, index) = self.make_constant(value);
        made.emit_bytes(OpCode::OpConstant.byte(), index)
    }

    /// The constant index of the global `name`: the one it was given before,
    /// or that of a new string constant, which is remembered for the name.
    #[verifier::opaque]
    pub open spec fn identifier_constant(self, name: Seq<char>) -> (Unit, u8) {
        match interned(self.state.idents, name) {
            Some(index) => (self, index),
            None => {
                let (made, index) = self.make_constant(ValueView::Str(name));
                (
                    Unit {
                        state: StateView {
                            idents: made.state.idents.push(IdentView { name, index }),
                            ..made.state
                        },
                        ..made
                    },
                    index,
                )
            },
        }
    }

    /// The stack slot of the local variable `name`, if there is one in scope.
    /// A variable that is found before its initializer has ended is an error.
    #[verifier::opaque]
    pub open spec fn resolve_local(self, name: Seq<char>) -> (Unit, Option<u8>) {
        match resolve(self.state.locals, name) {
            Some(slot) => (
                if self.state.locals[slot].depth == UNINITIALIZED {
                    self.error("Can't read local variable in its own initializer."@)
                } else {
                    self
                },
                Some(slot as u8),
            ),
            None => (self, None),
        }
    }

    /// Adds a local variable named by the token consumed last, not yet
    /// initialized. Where all slots are taken, reports an error instead.
    #[verifier::opaque]
    pub open spec fn add_local(self) -> Unit {
        if self.state.locals.len() >= MAX_LOCALS {
            self.error("Too many local variables defined."@)
        } else {
            Unit {
                state: StateView {
                    locals: self.state.locals.push(
                        LocalView { name: self.parser.previous.lexeme, depth: UNINITIALIZED },
                    ),
                    ..self.state
                },
                ..self
            }
        }
    }

    /// Declares the variable named by the token consumed last. At the top
    /// level there is nothing to do: globals are found by name. In a scope
    /// the variable becomes a local; where the scope already declares the
    /// name, an error is reported as well.
    #[verifier::opaque]
    pub open spec fn declare_variable(self) -> Unit {
        if self.state.scope_depth == 0 {
            self
        } else if declared_in_scope(
            self.state.locals,
            self.state.scope_depth,
            self.parser.previous.lexeme,
        ) {
            self.error("Already a variable with this name in this scope."@).add_local()
        } else {
            self.add_local()
        }
    }

    /// Parses the name of a variable being declared. Yields the constant index
    /// of the name for a global, and 0 for a local.
    #[verifier::opaque]
    pub open spec fn parse_variable(self, message: Seq<char>) -> (Unit, u8) {
        let declared = self.consume(TokenType::Identifier, message).declare_variable();
        if declared.state.scope_depth > 0 {
            (declared, 0)
        } else {
            declared.identifier_constant(declared.parser.previous.lexeme)
        }
    }

    /// Marks the local variable declared last as initialized: gives it the
    /// depth of the innermost scope.
    #[verifier::opaque]
    pub open spec fn mark_initialized(self) -> Unit {
        if self.state.locals.len() == 0 {
            self
        } else {
            Unit {
                state: StateView {
                    locals: self.state.locals.update(
                        self.state.locals.len() - 1,
                        LocalView {
                            name: self.state.locals.last().name,
                            depth: self.state.scope_depth,
                        },
                    ),
                    ..self.state
                },
                ..self
            }
        }
    }

    /// Ends the declaration of a variable whose initial value is on the
    /// stack: a local is from now on initialized, a global is defined by an
    /// instruction.
    #[verifier::opaque]
    pub open spec fn define_variable(self, global: u8) -> Unit {
        if self.state.scope_depth > 0 {
            self.mark_initialized()
        } else {
            self.emit_bytes(OpCode::OpDefineGlobal.byte(), global)
        }
    }

    /// Enters a scope.
    #[verifier::opaque]
    pub open spec fn begin_scope(self) -> Unit {
        Unit {
            state: StateView { scope_depth: (self.state.scope_depth + 1) as u8, ..self.state },
            ..self
        }
    }

    /// Removes the local variables on top of the list that lie deeper than
    /// the innermost scope, and emits one pop for each.
    #[verifier::opaque]
    pub open spec fn pop_locals(self) -> Unit
        decreases self.state.locals.len(),
    {
        if self.state.locals.len() > 0 && self.state.locals.last().depth > self.state.scope_depth {
            proof {
                reveal(Unit::emit_byte);
            }
            Unit {
                state: StateView { locals: self.state.locals.drop_last(), ..self.state },
                ..self
            }.emit(OpCode::OpPop).pop_locals()
        } else {
            self
        }
    }

    /// Leaves the innermost scope, and takes its local variables off the
    /// stack.
    #[verifier::opaque]
    pub open spec fn end_scope(self) -> Unit {
        Unit {
            state: StateView { scope_depth: (self.state.scope_depth - 1) as u8, ..self.state },
            ..self
        }.pop_locals()
    }

    /// A number literal has been consumed: loads its value, which the table
    /// of number literals gives. A literal that the table lacks is an error.
    #[verifier::opaque]
    pub open spec fn number(self) -> Unit {
        match number_value(self.state.numbers, self.parser.previous.lexeme) {
            Some(bits) => self.emit_constant(ValueView::Number(bits)),
            None => self.error("Number literal without a value."@),
        }
    }

    /// The text of a string literal: what stands between its quotes.
    pub open spec fn unquoted(lexeme: Seq<char>) -> Seq<char> {
        if lexeme.len() >= 2 {
            lexeme.subrange(1, lexeme.len() - 1)
        } else {
            Seq::empty()
        }
    }

    /// A string literal has been consumed: loads its text.
    #[verifier::opaque]
    pub open spec fn string(self) -> Unit {
        self.emit_constant(ValueView::Str(Self::unquoted(self.parser.previous.lexeme)))
    }

    /// `nil`, `true` or `false` has been consumed: emits its instruction.
    #[verifier::opaque]
    pub open spec fn literal(self) -> Unit {
        match self.parser.previous.token_type {
            TokenType::Nil => self.emit(OpCode::OpNil),
            TokenType::True => self.emit(OpCode::OpTrue),
            TokenType::False => self.emit(OpCode::OpFalse),
            _ => self,
        }
    }

    /// The code that applies a unary operator to the value on the stack.
    #[verifier::opaque]
    pub open spec fn emit_unary(self, operator: TokenType) -> Unit {
        match operator {
            TokenType::Minus => self.emit(OpCode::OpNegate),
            TokenType::Bang => self.emit(OpCode::OpNot),
            _ => self,
        }
    }

    /// The code that applies a binary operator to the two values on the
    /// stack. `!=`, `>=` and `<=` are the negations of `==`, `<` and `>`.
    #[verifier::opaque]
    pub open spec fn emit_binary(self, operator: TokenType) -> Unit {
        match operator {
            TokenType::BangEqual => self.emit_bytes(OpCode::OpEqual.byte(), OpCode::OpNot.byte()),
            TokenType::EqualEqual => self.emit(OpCode::OpEqual),
            TokenType::Greater => self.emit(OpCode::OpGreater),
            TokenType::GreaterEqual => self.emit_bytes(
                OpCode::OpLess.byte(),
                OpCode::OpNot.byte(),
            ),
            TokenType::Less => self.emit(OpCode::OpLess),
            TokenType::LessEqual => self.emit_bytes(
                OpCode::OpGreater.byte(),
                OpCode::OpNot.byte(),
            ),
            TokenType::Plus => self.emit(OpCode::OpAdd),
            TokenType::Minus => self.emit(OpCode::OpSubtract),
            TokenType::Star => self.emit(OpCode::OpMultiply),
            TokenType::Slash => self.emit(OpCode::OpDivide),
            _ => self,
        }
    }

    /// A use of the variable `name`: an assignment where an `=` follows and
    /// assignment is allowed here, a read otherwise. A local variable in
    /// scope is addressed by its slot, any other name as a global.
    pub open spec fn named_variable(self, name: Seq<char>, can_assign: bool) -> Unit
        decreases self.measure(), 20nat,
    {
        let (looked, slot) = self.resolve_local(name);
        let (found, get_op, set_op, arg) = match slot {
            Some(slot) => (looked, OpCode::OpGetLocal, OpCode::OpSetLocal, slot),
            None => {
                let (interned, index) = looked.identifier_constant(name);
                (interned, OpCode::OpGetGlobal, OpCode::OpSetGlobal, index)
            },
        };
        if can_assign && found.check(TokenType::Equal) {
            let assigned = found.advance();
            if assigned.measure() <= self.measure() {
                assigned.expression().emit_bytes(set_op.byte(), arg)
            } else {
                assigned
            }
        } else {
            found.emit_bytes(get_op.byte(), arg)
        }
    }

    /// An identifier has been consumed: a use of the variable it names.
    pub open spec fn variable(self, can_assign: bool) -> Unit
        decreases self.measure(), 21nat,
    {
        self.named_variable(self.parser.previous.lexeme, can_assign)
    }

    /// A `(` has been consumed: an expression and the `)` that closes it.
    pub open spec fn grouping(self) -> Unit
        decreases self.measure(), 20nat,
    {
        self.expression().consume(TokenType::RightParen, "Expect ')' after expression."@)
    }

    /// A unary operator has been consumed: its operand, then its code.
    pub open spec fn unary(self) -> Unit
        decreases self.measure(), 20nat,
    {
        self.parse_precedence(Precedence::Unary).emit_unary(self.parser.previous.token_type)
    }

    /// A binary operator has been consumed, its left operand is compiled: the
    /// right operand, which binds tighter than the operator, then the
    /// operator's code.
    pub open spec fn binary(self) -> Unit
        decreases self.measure(), 20nat,
    {
        let operator = self.parser.previous.token_type;
        self.parse_precedence(precedence_of(operator).next()).emit_binary(operator)
    }

    /// Calls the handler for the token consumed last.
    pub open spec fn prefix(self, handler: ParseFn, can_assign: bool) -> Unit
        decreases self.measure(), 22nat,
    {
        match handler {
            ParseFn::Grouping => self.grouping(),
            ParseFn::Unary => self.unary(),
            ParseFn::Binary => self.binary(),
            ParseFn::Variable => self.variable(can_assign),
            ParseFn::String => self.string(),
            ParseFn::Number => self.number(),
            ParseFn::Literal => self.literal(),
        }
    }

    /// While the lookahead is an operator that binds at least as tightly as
    /// `precedence`: consumes it and compiles it with its right operand.
    pub open spec fn infix_loop(self, precedence: Precedence) -> Unit
        decreases self.measure(), 5nat,
    {
        if is_binary_operator(self.next_type()) && precedence.level() <= precedence_of(
            self.next_type(),
        ).level() {
            let operator = self.advance();
            if operator.measure() < self.measure() {
                let applied = operator.binary();
                if applied.measure() < self.measure() {
                    applied.infix_loop(precedence)
                } else {
                    applied
                }
            } else {
                operator
            }
        } else {
            self
        }
    }

    /// Compiles an expression whose operators all bind at least as tightly as
    /// `precedence`: an operand, then operators and their right operands for
    /// as long as they bind tightly enough. An `=` left over where assignment
    /// was allowed has no target to its left, which is an error.
    pub open spec fn parse_precedence(self, precedence: Precedence) -> Unit
        decreases self.measure(), 6nat,
    {
        let begun = self.advance();
        match prefix_of(begun.parser.previous.token_type) {
            None => begun.error("Expect expression."@),
            Some(handler) => {
                let can_assign = precedence.level() <= Precedence::Assignment.level();
                if begun.measure() < self.measure() {
                    let operand = begun.prefix(handler, can_assign);
                    let whole = if operand.measure() < self.measure() {
                        operand.infix_loop(precedence)
                    } else {
                        operand
                    };
                    if can_assign && whole.check(TokenType::Equal) {
                        whole.advance().error("Invalid assignment target."@)
                    } else {
                        whole
                    }
                } else {
                    begun
                }
            },
        }
    }

    /// Compiles an expression.
    pub open spec fn expression(self) -> Unit
        decreases self.measure(), 7nat,
    {
        self.parse_precedence(Precedence::Assignment)
    }

    /// `print` has been consumed: an expression, a semicolon, and the
    /// instruction that prints.
    pub open spec fn print_statement(self) -> Unit
        decreases self.measure(), 8nat,
    {
        self.expression().consume(TokenType::Semicolon, "Expect ';' after value"@).emit(
            OpCode::OpPrint,
        )
    }

    /// An expression, a semicolon, and the instruction that discards the
    /// value.
    pub open spec fn expression_statement(self) -> Unit
        decreases self.measure(), 8nat,
    {
        self.expression().consume(TokenType::Semicolon, "Expect ';' after expression"@).emit(
            OpCode::OpPop,
        )
    }

    /// `var` has been consumed: the name, the initializer or `nil` in its
    /// place, a semicolon, and the definition of the variable.
    pub open spec fn var_declaration(self) -> Unit
        decreases self.measure(), 9nat,
    {
        let (named, global) = self.parse_variable("Expect variable name."@);
        let valued = if named.check(TokenType::Equal) {
            let begun = named.advance();
            if begun.measure() <= self.measure() {
                begun.expression()
            } else {
                begun
            }
        } else {
            named.emit(OpCode::OpNil)
        };
        valued.consume(
            TokenType::Semicolon,
            "Expect ';' after variable declaration."@,
        ).define_variable(global)
    }

    /// The declarations of a block, up to the `}` that closes it or the end
    /// of input.
    pub open spec fn block_items(self) -> Unit
        decreases self.measure(), 11nat,
    {
        if self.check(TokenType::RightBrace) || self.check(TokenType::Eof) {
            self
        } else {
            let declared = self.declaration();
            if declared.measure() < self.measure() {
                declared.block_items()
            } else {
                declared
            }
        }
    }

    /// `{` has been consumed: the declarations of the block and its `}`.
    pub open spec fn block(self) -> Unit
        decreases self.measure(), 12nat,
    {
        self.block_items().consume(TokenType::RightBrace, "Expect '}' after a block."@)
    }

    /// `{` has been consumed: a block in a scope of its own. A block nested
    /// deeper than [`MAX_SCOPE_DEPTH`] is an error, and is compiled in the
    /// scope around it.
    pub open spec fn scoped_block(self) -> Unit
        decreases self.measure(), 13nat,
    {
        proof {
            reveal(ParserView::error_at);
            reveal(ParserView::report);
            reveal(Unit::begin_scope);
        }
        if self.state.scope_depth < MAX_SCOPE_DEPTH {
            self.begin_scope().block().end_scope()
        } else {
            self.error("Too many nested blocks."@).block()
        }
    }

    /// A statement: a print statement, a block, or an expression statement.
    pub open spec fn statement(self) -> Unit
        decreases self.measure(), 9nat,
    {
        if self.check(TokenType::Print) {
            let begun = self.advance();
            if begun.measure() <= self.measure() {
                begun.print_statement()
            } else {
                begun
            }
        } else if self.check(TokenType::LeftBrace) {
            let begun = self.advance();
            if begun.measure() < self.measure() {
                begun.scoped_block()
            } else {
                begun
            }
        } else {
            self.expression_statement()
        }
    }

    /// A declaration: a variable declaration or a statement. After an error
    /// the parser skips to the next boundary and goes on from there.
    pub open spec fn declaration(self) -> Unit
        decreases self.measure(), 10nat,
    {
        let declared = if self.check(TokenType::Var) {
            let begun = self.advance();
            if begun.measure() <= self.measure() {
                begun.var_declaration()
            } else {
                begun
            }
        } else {
            self.statement()
        };
        if declared.parser.panic_mode {
            Unit { parser: declared.parser.synchronize(), ..declared }
        } else {
            declared
        }
    }

    /// The declarations of a program, up to the end of input.
    pub open spec fn declarations(self) -> Unit
        decreases self.measure(),
    {
        if self.check(TokenType::Eof) {
            self
        } else {
            let declared = self.declaration();
            if declared.measure() < self.measure() {
                declared.declarations()
            } else {
                declared
            }
        }
    }

    /// Compiles a program: scans the first token, compiles declarations up to
    /// the end of input, and emits the instruction that ends the run.
    pub open spec fn compile(self) -> Unit {
        self.advance().declarations().advance().consume(
            TokenType::Eof,
            "Expected end of expression"@,
        ).emit(OpCode::OpReturn)
    }
}

/// The result of compiling `source` into an empty chunk, with the given
/// values for its number literals.
pub open spec fn compile_source(source: Seq<char>, numbers: Seq<NumberLiteralView>) -> Unit {
    Unit {
        parser: ParserView::begin(source),
        state: StateView::begin(ChunkView::empty(), numbers),
    }.compile()
}

/// Scanning for the next token moves the scanner forward only, and stops at
/// the end of the source only with `Eof`. It touches the error record only by
/// reporting.
pub proof fn lemma_pull(p: ParserView)
    requires
        p.scanner.wf(),
    ensures
        p.pull().scanner.wf(),
        p.pull().scanner.source == p.scanner.source,
        p.pull().scanner.current >= p.scanner.current,
        p.pull().previous == p.previous,
        p.pull().current.token_type != TokenType::Eof ==> p.pull().scanner.current
            > p.scanner.current,
        p.wf() ==> p.pull().wf(),
    decreases p.scanner.remaining(),
{
    reveal_with_fuel(ParserView::pull, 1);
    reveal(ParserView::scan_error);
    reveal(ParserView::report);
    lemma_scan_token(p.scanner);
    let (scanner, found) = p.scanner.scan_token();
    let moved = ParserView { scanner, ..p };
    match found {
        Ok(token) => {},
        Err(error) => {
            lemma_pull(moved.scan_error(error));
        },
    }
}

/// The constant pool never outgrows what one byte can index. Asking a full
/// pool for one more constant adds nothing to it and is an error: it is
/// reported as "Too many constants in one chunk." unless the parser is
/// recovering from an earlier error, and leaves the compilation failed.
pub proof fn lemma_constant_pool_bound(u: Unit, value: ValueView)
    ensures
        u.state.chunk.wf() ==> u.make_constant(value).0.state.chunk.wf(),
        u.state.chunk.constants.len() >= MAX_CONSTANTS ==> {
            &&& u.make_constant(value).0.state == u.state
            &&& u.make_constant(value).0.parser == u.parser.error(
                "Too many constants in one chunk."@,
            )
            &&& u.parser.wf() ==> u.make_constant(value).0.parser.had_error
            &&& !u.parser.panic_mode ==> u.make_constant(value).0.parser.diagnostics.last().message
                == "Too many constants in one chunk."@
        },
{
    reveal(Unit::make_constant);
    reveal(ParserView::error_at);
    reveal(ParserView::report);
}

/// Whatever the source, the code that compiling leaves ends with the
/// instruction that ends the run.
pub proof fn lemma_compile_ends_with_return(u: Unit)
    ensures
        u.compile().state.chunk.code.len() > 0,
        u.compile().state.chunk.code.last() == OpCode::OpReturn.byte(),
{
    reveal(Unit::emit_byte);
}

/// Removing the locals of a scope that has ended leaves a chunk that has a
/// line for every byte as it is in that respect, and adds no constant.
pub proof fn lemma_pop_locals(u: Unit)
    ensures
        u.pop_locals().parser == u.parser,
        u.pop_locals().state.locals.len() <= u.state.locals.len(),
        u.pop_locals().state.chunk.constants == u.state.chunk.constants,
        u.state.chunk.wf() ==> u.pop_locals().state.chunk.wf(),
        u.pop_locals().state.numbers == u.state.numbers,
        u.pop_locals().state.idents == u.state.idents,
        u.pop_locals().state.scope_depth == u.state.scope_depth,
    decreases u.state.locals.len(),
{
    reveal_with_fuel(Unit::pop_locals, 1);
    reveal(Unit::emit_byte);
    if u.state.locals.len() > 0 && u.state.locals.last().depth > u.state.scope_depth {
        lemma_pop_locals(
            Unit {
                state: StateView { locals: u.state.locals.drop_last(), ..u.state },
                ..u
            }.emit(OpCode::OpPop),
        );
    }
}

/// Consuming a token never leaves more to parse, and leaves less unless the
/// token consumed is the end of input.
pub proof fn lemma_advance(p: ParserView)
    requires
        p.scanner.wf(),
    ensures
        p.advance().scanner.wf(),
        p.advance().scanner.source == p.scanner.source,
        p.advance().measure() <= p.measure(),
        p.current.token_type != TokenType::Eof ==> p.advance().measure() < p.measure(),
        p.advance().previous == p.current,
        p.wf() ==> p.advance().wf(),
{
    reveal(ParserView::advance);
    lemma_pull(ParserView { previous: p.current, ..p });
}

/// Error recovery never leaves more to parse.
pub proof fn lemma_synchronize(p: ParserView)
    requires
        p.scanner.wf(),
    ensures
        p.skip_to_boundary().follows(p),
        p.synchronize().follows(p),
    decreases p.measure(),
{
    reveal_with_fuel(ParserView::skip_to_boundary, 1);
    reveal(ParserView::synchronize);
    lemma_advance(p);
    if !p.at_boundary() {
        lemma_synchronize(p.advance());
    }
    let quiet = ParserView { panic_mode: false, ..p };
    lemma_advance(quiet);
    if !quiet.at_boundary() {
        lemma_synchronize(quiet.advance());
    }
}

} // verus!
