//! The stack machine that executes a chunk.
//!
//! The machine does no arithmetic on numbers beyond comparison and negation,
//! and it writes nothing. [`VM::step`] executes one instruction and reports
//! what, if anything, is left for the embedding program to do: print a value,
//! or compute a sum, difference, product or quotient and push it. [`VM::run`]
//! repeats that until there is something to report, and [`VM::interpret`]
//! compiles a source and runs it up to its first report.

use vstd::prelude::*;
use crate::chunk::{Chunk, ChunkView, OpCode};
use crate::compiler::diagnostic::{diagnostic_views, Diagnostic, DiagnosticView};
use crate::compiler::model::{compile_source, Unit};
use crate::compiler::parser::{number_views, NumberLiteral, Parser};
use crate::globals::Globals;
use crate::obj::Obj;
use crate::value::{number_less, number_negate, number_lt, number_neg, views, Value, ValueView};

verus! {

/// Why an interpretation ended without success.
#[derive(Debug, Clone, Copy, PartialEq, Eq, Structural)]
pub enum InterpretError {
    CompileError,
    RuntimeError,
}

/// The arithmetic that the machine leaves to the embedding program.
#[derive(Debug, Clone, Copy, PartialEq, Eq, Structural)]
pub enum Arithmetic {
    Add,
    Subtract,
    Multiply,
    Divide,
}

/// What the machine reports after executing an instruction.
#[derive(Debug, PartialEq)]
pub enum Signal {
    /// The instruction is done and execution can go on.
    Continue,
    /// The program printed this value: write its display form and a newline.
    Print(Value),
    /// The operands have been popped: compute `left op right` on doubles and
    /// push the result as a number before going on.
    Compute { op: Arithmetic, left: u64, right: u64 },
    /// The program has run to completion.
    Done,
    /// The program failed at the instruction that `line` was compiled from,
    /// and the machine has halted.
    RuntimeError { message: String, line: u32 },
}

/// What a [`Signal`] denotes.
pub enum SignalView {
    Continue,
    Print(ValueView),
    Compute { op: Arithmetic, left: u64, right: u64 },
    Done,
    RuntimeError { message: Seq<char>, line: u32 },
}

impl View for Signal {
    type V = SignalView;

    open spec fn view(&self) -> SignalView {
        match self {
            Signal::Continue => SignalView::Continue,
            Signal::Print(value) => SignalView::Print(value@),
            Signal::Compute { op, left, right } => SignalView::Compute {
                op: *op,
                left: *left,
                right: *right,
            },
            Signal::Done => SignalView::Done,
            Signal::RuntimeError { message, line } => SignalView::RuntimeError {
                message: message@,
                line: *line,
            },
        }
    }
}

impl Signal {
    /// How the interpretation ended, once it has: `None` while there is more
    /// to execute.
    pub fn outcome(&self) -> (res: Option<Result<(), InterpretError>>)
        ensures
            res == self@.outcome(),
    {
        match self {
            Signal::Done => Some(Ok(())),
            Signal::RuntimeError { .. } => Some(Err(InterpretError::RuntimeError)),
            _ => None,
        }
    }
}

impl SignalView {
    /// `Some` for the two signals that end an interpretation.
    pub open spec fn outcome(self) -> Option<Result<(), InterpretError>> {
        match self {
            SignalView::Done => Some(Ok(())),
            SignalView::RuntimeError { .. } => Some(Err(InterpretError::RuntimeError)),
            _ => None,
        }
    }
}

/// A runtime error: what went wrong, and the source line of the instruction
/// that failed.
#[derive(Debug, PartialEq)]
pub struct Fault {
    pub message: String,
    pub line: u32,
}

/// What a [`Fault`] denotes.
pub struct FaultView {
    pub message: Seq<char>,
    pub line: u32,
}

impl View for Fault {
    type V = FaultView;

    open spec fn view(&self) -> FaultView {
        FaultView { message: self.message@, line: self.line }
    }
}

/// The view of a fault that may be there.
pub open spec fn fault_view(fault: Option<Fault>) -> Option<FaultView> {
    match fault {
        Some(fault) => Some(fault@),
        None => None,
    }
}

/// The state of a machine: the operand stack, bottom first; the index in the
/// code of the next instruction; the program; the globals; what the compiler
/// reported about the source interpreted last; and the runtime error that
/// halted the machine, if one did.
pub struct VmView {
    pub stack: Seq<ValueView>,
    pub ip: int,
    pub chunk: ChunkView,
    pub globals: Map<Seq<char>, ValueView>,
    pub diagnostics: Seq<DiagnosticView>,
    pub fault: Option<FaultView>,
}

/// The arithmetic that an opcode asks for, if it asks for any.
pub open spec fn arithmetic_of(op: OpCode) -> Option<Arithmetic> {
    match op {
        OpCode::OpAdd => Some(Arithmetic::Add),
        OpCode::OpSubtract => Some(Arithmetic::Subtract),
        OpCode::OpMultiply => Some(Arithmetic::Multiply),
        OpCode::OpDivide => Some(Arithmetic::Divide),
        _ => None,
    }
}

/// Equality of two operands either of which may be missing: two missing
/// operands are equal, a missing one equals no value.
pub open spec fn operands_equal(a: Option<ValueView>, b: Option<ValueView>) -> bool {
    match (a, b) {
        (Some(x), Some(y)) => x.equals(y),
        (None, None) => true,
        _ => false,
    }
}

impl VmView {
    /// A machine halts when its instruction pointer is at or past the end of
    /// the code.
    pub open spec fn halted(self) -> bool {
        self.ip >= self.chunk.code.len()
    }

    /// The machine with `value` pushed.
    pub open spec fn push(self, value: ValueView) -> VmView {
        VmView { stack: self.stack.push(value), ..self }
    }

    /// The machine without the `count` topmost values, or with an empty stack
    /// where it holds fewer.
    pub open spec fn drop(self, count: nat) -> VmView {
        if count <= self.stack.len() {
            VmView { stack: self.stack.take(self.stack.len() - count), ..self }
        } else {
            VmView { stack: Seq::empty(), ..self }
        }
    }

    /// The value `depth` places below the top of the stack, if there is one.
    pub open spec fn peek(self, depth: nat) -> Option<ValueView> {
        if depth < self.stack.len() {
            Some(self.stack[self.stack.len() - 1 - depth])
        } else {
            None
        }
    }

    /// The machine with its instruction pointer at `ip`, which may lie beyond
    /// the end of the code: the machine has then halted.
    pub open spec fn goto(self, ip: int) -> VmView {
        VmView { ip, ..self }
    }

    /// The machine halted.
    pub open spec fn halt(self) -> VmView {
        VmView { ip: self.chunk.code.len() as int, ..self }
    }

    /// The machine halted by a runtime error in the instruction whose opcode
    /// is at `at`: the error is kept in the machine, and reported.
    pub open spec fn fail(self, at: int, message: Seq<char>) -> (VmView, SignalView) {
        let line = match self.chunk.line_at(at) {
            Some(line) => line,
            None => 0,
        };
        (
            VmView { fault: Some(FaultView { message, line }), ..self.halt() },
            SignalView::RuntimeError { message, line },
        )
    }

    /// The one-byte operand of the instruction at `at`.
    pub open spec fn operand(self, at: int) -> u8 {
        self.chunk.code[at + 1]
    }

    /// The two-byte operand of the instruction at `at`, most significant byte
    /// first.
    pub open spec fn wide_operand(self, at: int) -> int {
        (self.chunk.code[at + 1] as int) * 256 + (self.chunk.code[at + 2] as int)
    }

    /// Executes the instruction with opcode `op` at `at`, all of whose operand
    /// bytes are there; the instruction pointer is already past them.
    pub open spec fn execute(self, at: int, op: OpCode) -> (VmView, SignalView) {
        match op {
            OpCode::OpConstant => {
                let index = self.operand(at) as int;
                if index < self.chunk.constants.len() {
                    (self.push(self.chunk.constants[index]), SignalView::Continue)
                } else {
                    self.fail(at, "Constant index out of range."@)
                }
            },
            OpCode::OpNil => (self.push(ValueView::Nil), SignalView::Continue),
            OpCode::OpTrue => (self.push(ValueView::Boolean(true)), SignalView::Continue),
            OpCode::OpFalse => (self.push(ValueView::Boolean(false)), SignalView::Continue),
            OpCode::OpPop => (self.drop(1), SignalView::Continue),
            OpCode::OpGetLocal => {
                let slot = self.operand(at) as int;
                if slot < self.stack.len() {
                    (self.push(self.stack[slot]), SignalView::Continue)
                } else {
                    self.fail(at, "Stack slot out of range."@)
                }
            },
            OpCode::OpSetLocal => {
                let slot = self.operand(at) as int;
                if slot < self.stack.len() {
                    (
                        VmView { stack: self.stack.update(slot, self.stack.last()), ..self },
                        SignalView::Continue,
                    )
                } else {
                    self.fail(at, "Stack slot out of range."@)
                }
            },
            OpCode::OpGetGlobal => {
                let index = self.operand(at) as int;
                if index >= self.chunk.constants.len() {
                    self.fail(at, "Constant index out of range."@)
                } else {
                    match self.chunk.constants[index] {
                        ValueView::Str(name) => {
                            if self.globals.contains_key(name) {
                                (self.push(self.globals[name]), SignalView::Continue)
                            } else {
                                self.fail(at, undefined_variable(name))
                            }
                        },
                        _ => (self, SignalView::Continue),
                    }
                }
            },
            OpCode::OpDefineGlobal => {
                let index = self.operand(at) as int;
                if index >= self.chunk.constants.len() {
                    self.fail(at, "Constant index out of range."@)
                } else {
                    match self.chunk.constants[index] {
                        ValueView::Str(name) => {
                            if self.stack.len() > 0 {
                                (
                                    VmView {
                                        globals: self.globals.insert(name, self.stack.last()),
                                        ..self.drop(1)
                                    },
                                    SignalView::Continue,
                                )
                            } else {
                                self.fail(at, "Stack underflow."@)
                            }
                        },
                        _ => (self, SignalView::Continue),
                    }
                }
            },
            OpCode::OpSetGlobal => {
                let index = self.operand(at) as int;
                if index >= self.chunk.constants.len() {
                    self.fail(at, "Constant index out of range."@)
                } else {
                    match self.chunk.constants[index] {
                        ValueView::Str(name) => {
                            if self.stack.len() == 0 {
                                self.fail(at, "Stack underflow."@)
                            } else if self.globals.contains_key(name) {
                                (
                                    VmView {
                                        globals: self.globals.insert(name, self.stack.last()),
                                        ..self
                                    },
                                    SignalView::Continue,
                                )
                            } else {
                                self.fail(at, undefined_variable(name))
                            }
                        },
                        _ => (self, SignalView::Continue),
                    }
                }
            },
            OpCode::OpEqual => {
                let equal = operands_equal(self.peek(1), self.peek(0));
                (self.drop(2).push(ValueView::Boolean(equal)), SignalView::Continue)
            },
            OpCode::OpGreater | OpCode::OpLess => {
                match (self.peek(1), self.peek(0)) {
                    (Some(ValueView::Number(a)), Some(ValueView::Number(b))) => {
                        let holds = if op == OpCode::OpLess {
                            number_lt(a, b)
                        } else {
                            number_lt(b, a)
                        };
                        (self.drop(2).push(ValueView::Boolean(holds)), SignalView::Continue)
                    },
                    (Some(_), Some(_)) => self.drop(2).fail(at, "Operands must be numbers."@),
                    _ => self.drop(2).fail(at, "Stack underflow."@),
                }
            },
            OpCode::OpAdd | OpCode::OpSubtract | OpCode::OpMultiply | OpCode::OpDivide => {
                match (self.peek(1), self.peek(0)) {
                    (Some(ValueView::Number(a)), Some(ValueView::Number(b))) => (
                        self.drop(2),
                        SignalView::Compute { op: arithmetic_of(op).unwrap(), left: a, right: b },
                    ),
                    (Some(ValueView::Str(a)), Some(ValueView::Str(b))) => {
                        if op == OpCode::OpAdd {
                            (self.drop(2).push(ValueView::Str(a + b)), SignalView::Continue)
                        } else {
                            self.drop(2).fail(at, "Operands must be numbers."@)
                        }
                    },
                    (Some(_), Some(_)) => self.drop(2).fail(at, "Operands must be numbers."@),
                    _ => self.drop(2).fail(at, "Stack underflow."@),
                }
            },
            OpCode::OpNot => {
                match self.peek(0) {
                    Some(value) => (
                        self.drop(1).push(ValueView::Boolean(value.is_falsey())),
                        SignalView::Continue,
                    ),
                    None => (self, SignalView::Continue),
                }
            },
            OpCode::OpNegate => {
                match self.peek(0) {
                    Some(ValueView::Number(bits)) => (
                        self.drop(1).push(ValueView::Number(number_neg(bits))),
                        SignalView::Continue,
                    ),
                    Some(_) => self.drop(1).fail(at, "Operand must be a number."@),
                    None => (self, SignalView::Continue),
                }
            },
            OpCode::OpPrint => {
                match self.peek(0) {
                    Some(value) => (self.drop(1), SignalView::Print(value)),
                    None => self.fail(at, "Stack underflow."@),
                }
            },
            OpCode::OpJump => (self.goto(at + 3 + self.wide_operand(at)), SignalView::Continue),
            OpCode::OpJumpIfFalse => {
                match self.peek(0) {
                    Some(value) => {
                        if value.is_falsey() {
                            (self.goto(at + 3 + self.wide_operand(at)), SignalView::Continue)
                        } else {
                            (self, SignalView::Continue)
                        }
                    },
                    None => self.fail(at, "Stack should not be empty but is empty."@),
                }
            },
            OpCode::OpLoop => {
                if self.wide_operand(at) <= at + 3 {
                    (self.goto(at + 3 - self.wide_operand(at)), SignalView::Continue)
                } else {
                    self.fail(at, "Jump out of range."@)
                }
            },
            OpCode::OpReturn => (self.halt(), SignalView::Done),
        }
    }

    /// One transition of the machine: the next state and what it reports.
    ///
    /// A halted machine stays as it is and reports `Done`. Otherwise the byte
    /// at the instruction pointer is decoded, the pointer moves past the
    /// instruction, and the instruction is executed. A byte that is no opcode,
    /// and an instruction whose operand bytes are cut off by the end of the
    /// code, are runtime errors.
    pub open spec fn step(self) -> (VmView, SignalView) {
        if self.halted() {
            (self, SignalView::Done)
        } else {
            let at = self.ip;
            match OpCode::decode(self.chunk.code[at]) {
                None => self.fail(at, "Unknown opcode."@),
                Some(op) => {
                    if at + 1 + op.operand_width() > self.chunk.code.len() {
                        self.fail(at, "Truncated instruction."@)
                    } else {
                        VmView { ip: at + 1 + op.operand_width(), ..self }.execute(at, op)
                    }
                },
            }
        }
    }

    /// The state and the report after at most `fuel` transitions, stopping
    /// early at the first report that is not `Continue`.
    pub open spec fn run(self, fuel: nat) -> (VmView, SignalView)
        decreases fuel,
    {
        if fuel == 0 {
            (self, SignalView::Continue)
        } else {
            let (next, signal) = self.step();
            if signal == SignalView::Continue {
                next.run((fuel - 1) as nat)
            } else {
                (next, signal)
            }
        }
    }
}

/// The message for a read of, or an assignment to, a global that has no
/// binding.
pub open spec fn undefined_variable(name: Seq<char>) -> Seq<char> {
    "Undefined variable '"@ + name + "'"@
}


/// The machine never changes its program, nor what the compiler reported
/// about it.
pub proof fn lemma_program_is_kept(vm: VmView, fuel: nat)
    ensures
        vm.step().0.chunk == vm.chunk,
        vm.step().0.diagnostics == vm.diagnostics,
        vm.run(fuel).0.chunk == vm.chunk,
        vm.run(fuel).0.diagnostics == vm.diagnostics,
    decreases fuel,
{
    if fuel > 0 {
        lemma_program_is_kept(vm.step().0, (fuel - 1) as nat);
    }
}

/// A machine that has halted stays halted, whatever is run on it.
pub proof fn lemma_halted_stays_halted(vm: VmView, fuel: nat)
    requires
        vm.halted(),
    ensures
        vm.step() == (vm, SignalView::Done),
        fuel > 0 ==> vm.run(fuel) == (vm, SignalView::Done),
{
}

/// What [`VM::interpret`] returns, by the view of the report in it.
pub open spec fn interpreted(res: Result<Signal, InterpretError>) -> Result<
    SignalView,
    InterpretError,
> {
    match res {
        Ok(signal) => Ok(signal@),
        Err(error) => Err(error),
    }
}

/// A machine that holds no runtime error holds one after a run exactly when
/// the run ended in one.
pub proof fn lemma_fault_tells_failure(vm: VmView, fuel: nat)
    requires
        vm.fault is None,
    ensures
        vm.step().0.fault is Some <==> vm.step().1 is RuntimeError,
        vm.run(fuel).0.fault is Some <==> vm.run(fuel).1 is RuntimeError,
    decreases fuel,
{
    if fuel > 0 && vm.step().1 == SignalView::Continue {
        lemma_fault_tells_failure(vm.step().0, (fuel - 1) as nat);
    }
}

/// A step that fails changes no global, and halts the machine.
pub proof fn lemma_failure_keeps_globals(vm: VmView)
    requires
        vm.step().1 is RuntimeError,
    ensures
        vm.step().0.globals == vm.globals,
        vm.step().0.halted(),
{
}

/// Reading a global that has no binding fails with the message that names
/// it, and so does assigning to one, which leaves the name without binding.
pub proof fn lemma_undefined_global(vm: VmView, at: int, op: OpCode, name: Seq<char>)
    requires
        op == OpCode::OpGetGlobal || op == OpCode::OpSetGlobal,
        0 <= at,
        at + 2 <= vm.chunk.code.len(),
        vm.operand(at) < vm.chunk.constants.len(),
        vm.chunk.constants[vm.operand(at) as int] == ValueView::Str(name),
        op == OpCode::OpSetGlobal ==> vm.stack.len() > 0,
        !vm.globals.contains_key(name),
    ensures
        vm.execute(at, op).1 matches SignalView::RuntimeError { message, .. } && message
            == undefined_variable(name),
        !vm.execute(at, op).0.globals.contains_key(name),
        vm.execute(at, op).0.globals == vm.globals,
{
}

/// A jump that is not taken peeks at the top of the stack and leaves the
/// stack as it is; so does one that is taken.
pub proof fn lemma_conditional_jump_keeps_stack(vm: VmView, at: int)
    ensures
        vm.execute(at, OpCode::OpJumpIfFalse).0.stack == vm.stack,
{
}

/// Pushing a value pushes its view.
proof fn lemma_views_push(values: Seq<Value>, value: Value)
    ensures
        views(values.push(value)) == views(values).push(value@),
{
    assert(views(values.push(value)) =~= views(values).push(value@));
}

/// The virtual machine.
#[derive(Debug)]
pub struct VM {
    stack: Vec<Value>,
    /// Wider than any offset in the code, so that a jump beyond the end of
    /// the code has a place to land.
    ip: u128,
    chunk: Chunk,
    globals: Globals,
    diagnostics: Vec<Diagnostic>,
    fault: Option<Fault>,
}

impl View for VM {
    type V = VmView;

    closed spec fn view(&self) -> VmView {
        VmView {
            stack: views(self.stack@),
            ip: self.ip as int,
            chunk: self.chunk@,
            globals: self.globals@,
            diagnostics: diagnostic_views(self.diagnostics@),
            fault: fault_view(self.fault),
        }
    }
}

impl VM {
    /// A machine with no program, an empty stack and no globals.
    pub fn new() -> (res: VM)
        ensures
            res@ == VmView::fresh(),
            res@.halted(),
    {
        let res = VM {
            stack: Vec::new(),
            ip: 0,
            chunk: Chunk::new(),
            globals: Globals::new(),
            diagnostics: Vec::new(),
            fault: None,
        };
        assert(res@.stack =~= Seq::<ValueView>::empty());
        assert(res@.diagnostics =~= Seq::<DiagnosticView>::empty());
        res
    }

    /// Empties the operand stack, puts the instruction pointer back at the
    /// start of the program and forgets an earlier runtime error. The globals
    /// stay.
    pub fn reset(&mut self)
        ensures
            final(self)@ == (VmView { stack: Seq::empty(), ip: 0, fault: None, ..old(self)@ }),
    {
        self.stack = Vec::new();
        self.ip = 0;
        self.fault = None;
        assert(views(self.stack@) =~= Seq::<ValueView>::empty());
    }

    /// Replaces the program by `chunk` and resets the machine to run it from
    /// its first instruction. The globals stay.
    pub fn load(&mut self, chunk: Chunk)
        ensures
            final(self)@ == old(self)@.load(chunk@),
    {
        self.chunk = chunk;
        self.stack = Vec::new();
        self.ip = 0;
        self.fault = None;
        assert(views(self.stack@) =~= Seq::<ValueView>::empty());
    }

    /// Interprets `source`: compiles it and, if it compiles, runs the program
    /// from its first instruction, with an empty stack, up to its first
    /// report or for `fuel` instructions.
    ///
    /// `numbers` gives the value of every number literal of the source, by
    /// the literal's text. Where the source does not compile, the result is
    /// `CompileError`, nothing of it runs, and the machine is left halted
    /// with no program. Where the program fails, the result is
    /// `RuntimeError`, and [`VM::fault`] tells what failed and on which line.
    /// Any other report is handed out as it is: after `Print`, `Compute` and
    /// `Continue` the program goes on with [`VM::run`]. The globals are those
    /// that earlier interpretations left, and the machine holds what the
    /// compiler reported.
    pub fn interpret(&mut self, source: String, numbers: &Vec<NumberLiteral>, fuel: usize) -> (res:
        Result<Signal, InterpretError>)
        ensures
            (final(self)@, interpreted(res)) == old(self)@.interpret(
                compile_source(source@, number_views(numbers@)),
                fuel as nat,
            ),
            res matches Err(InterpretError::CompileError) <==> final(self)@.diagnostics.len() > 0,
            res matches Err(InterpretError::RuntimeError) <==> final(self)@.fault is Some,
            final(self)@.chunk.wf(),
    {
        let mut parser = Parser::new(source);
        let mut chunk = Chunk::new();
        let compilation_result = parser.compile(&mut chunk, numbers);
        self.diagnostics = parser.into_diagnostics();
        match compilation_result {
            Err(_) => {
                self.load(Chunk::new());
                Err(InterpretError::CompileError)
            },
            Ok(_) => {
                self.load(chunk);
                proof {
                    lemma_program_is_kept(self@, fuel as nat);
                    lemma_fault_tells_failure(self@, fuel as nat);
                }
                match self.run(fuel) {
                    Signal::RuntimeError { .. } => Err(InterpretError::RuntimeError),
                    signal => Ok(signal),
                }
            },
        }
    }

    /// What the compiler reported about the source interpreted last, oldest
    /// first.
    pub fn diagnostics(&self) -> (res: &Vec<Diagnostic>)
        ensures
            diagnostic_views(res@) == self@.diagnostics,
    {
        &self.diagnostics
    }

    /// Pushes `value` on the operand stack.
    pub fn push(&mut self, value: Value)
        ensures
            final(self)@ == old(self)@.push(value@),
    {
        proof {
            lemma_views_push(self.stack@, value);
        }
        self.stack.push(value);
    }

    /// Pops the top of the operand stack; `None` when the stack is empty.
    pub fn pop(&mut self) -> (res: Option<Value>)
        ensures
            final(self)@ == old(self)@.drop(1),
            match res {
                Some(value) => old(self)@.peek(0) == Some(value@),
                None => old(self)@.peek(0) is None,
            },
    {
        let res = self.stack.pop();
        assert(views(self.stack@) =~= old(self)@.drop(1).stack);
        res
    }

    /// The value `depth` places below the top of the operand stack, if the
    /// stack is that deep.
    pub fn peek(&self, depth: usize) -> (res: Option<&Value>)
        ensures
            match res {
                Some(value) => self@.peek(depth as nat) == Some(value@),
                None => self@.peek(depth as nat) is None,
            },
    {
        if depth < self.stack.len() {
            Some(&self.stack[self.stack.len() - 1 - depth])
        } else {
            None
        }
    }

    /// Whether the machine has halted.
    pub fn is_halted(&self) -> (res: bool)
        ensures
            res == self@.halted(),
    {
        self.ip >= self.chunk.len() as u128
    }

    /// The value bound to the global `name`, if it is bound.
    pub fn global(&self, name: &String) -> (res: Option<&Value>)
        ensures
            res is Some == self@.globals.contains_key(name@),
            res matches Some(value) ==> value@ == self@.globals[name@],
    {
        self.globals.get(name)
    }

    /// The program that the machine holds.
    pub fn chunk(&self) -> (res: &Chunk)
        ensures
            res@ == self@.chunk,
    {
        &self.chunk
    }

    /// The index in the code of the instruction to execute next.
    pub fn ip(&self) -> (res: u128)
        ensures
            res == self@.ip,
    {
        self.ip
    }

    /// The depth of the operand stack.
    pub fn stack_len(&self) -> (res: usize)
        ensures
            res == self@.stack.len(),
    {
        self.stack.len()
    }

    /// Halts the machine, keeps the error of the instruction at `at` and
    /// builds its report.
    fn fail(&mut self, at: usize, message: String) -> (signal: Signal)
        ensures
            (final(self)@, signal@) == old(self)@.fail(at as int, message@),
    {
        let line = match self.chunk.get_line(at) {
            Some(line) => line,
            None => 0,
        };
        self.ip = self.chunk.len() as u128;
        self.fault = Some(Fault { message: message.clone(), line });
        Signal::RuntimeError { message, line }
    }

    /// The runtime error that halted the machine, if one did.
    pub fn fault(&self) -> (res: Option<&Fault>)
        ensures
            match res {
                Some(fault) => self@.fault == Some(fault@),
                None => self@.fault is None,
            },
    {
        self.fault.as_ref()
    }

    /// Moves the instruction pointer to `at + 3 + offset`.
    fn jump_forward(&mut self, at: usize, offset: usize)
        requires
            offset <= 0xffff,
        ensures
            final(self)@ == old(self)@.goto(at + 3 + offset),
    {
        self.ip = at as u128 + 3 + offset as u128;
    }

    /// The two-byte operand of the instruction at `at`.
    fn read_two_bytes(&self, at: usize) -> (res: usize)
        requires
            at + 3 <= self@.chunk.code.len(),
        ensures
            res == self@.wide_operand(at as int),
            res <= 0xffff,
    {
        assert(self.chunk.code.len() == self@.chunk.code.len());
        let high: u8 = self.chunk.code[at + 1];
        let low: u8 = self.chunk.code[at + 2];
        (high as usize) * 256 + (low as usize)
    }

    /// A copy of the constant that the one-byte operand of the instruction at
    /// `at` refers to; `None` when the pool has no such constant.
    fn read_constant(&self, at: usize) -> (res: Option<Value>)
        requires
            at + 2 <= self@.chunk.code.len(),
        ensures
            match res {
                Some(value) => {
                    &&& self@.operand(at as int) < self@.chunk.constants.len()
                    &&& value@ == self@.chunk.constants[self@.operand(at as int) as int]
                },
                None => self@.operand(at as int) >= self@.chunk.constants.len(),
            },
    {
        assert(self.chunk.code.len() == self@.chunk.code.len());
        let index: u8 = self.chunk.code[at + 1];
        if (index as usize) < self.chunk.value_array.values.len() {
            Some(self.chunk.value_array.values[index as usize].clone())
        } else {
            None
        }
    }

    /// Executes one instruction and reports what is left to do.
    ///
    /// After `Compute`, push the result with [`VM::push`] before the next
    /// step. After `Done` and after `RuntimeError` the machine has halted and
    /// further steps report `Done` without effect.
    pub fn step(&mut self) -> (signal: Signal)
        ensures
            (final(self)@, signal@) == old(self)@.step(),
    {
        let len = self.chunk.len();
        if self.ip >= len as u128 {
            return Signal::Done;
        }
        let at = self.ip as usize;
        let op = match OpCode::from_byte(self.chunk.code[at]) {
            Some(op) => op,
            None => {
                return self.fail(at, String::from_str("Unknown opcode."));
            },
        };
        let width = op.operand_count();
        if width > len - at - 1 {
            return self.fail(at, String::from_str("Truncated instruction."));
        }
        self.ip = (at + 1 + width) as u128;
        let signal = self.execute(at, op);
        signal
    }

    /// Executes the instruction with opcode `op` at `at`; the instruction
    /// pointer is already past it.
    fn execute(&mut self, at: usize, op: OpCode) -> (signal: Signal)
        requires
            at + 1 + op.operand_width() <= old(self)@.chunk.code.len(),
        ensures
            (final(self)@, signal@) == old(self)@.execute(at as int, op),
    {
        assert(self.chunk.code.len() == self@.chunk.code.len());
        match op {
            OpCode::OpConstant => {
                match self.read_constant(at) {
                    Some(value) => {
                        self.push(value);
                        Signal::Continue
                    },
                    None => self.fail(at, String::from_str("Constant index out of range.")),
                }
            },
            OpCode::OpNil => {
                self.push(Value::Nil);
                Signal::Continue
            },
            OpCode::OpTrue => {
                self.push(Value::Boolean(true));
                Signal::Continue
            },
            OpCode::OpFalse => {
                self.push(Value::Boolean(false));
                Signal::Continue
            },
            OpCode::OpPop => {
                let _ = self.pop();
                Signal::Continue
            },
            OpCode::OpGetLocal => {
                let slot: u8 = self.chunk.code[at + 1];
                if (slot as usize) < self.stack.len() {
                    let value = self.stack[slot as usize].clone();
                    self.push(value);
                    Signal::Continue
                } else {
                    self.fail(at, String::from_str("Stack slot out of range."))
                }
            },
            OpCode::OpSetLocal => {
                let slot: u8 = self.chunk.code[at + 1];
                if (slot as usize) < self.stack.len() {
                    let value = self.stack[self.stack.len() - 1].clone();
                    self.stack.set(slot as usize, value);
                    assert(views(self.stack@) =~= old(self)@.stack.update(
                        slot as int,
                        old(self)@.stack.last(),
                    ));
                    Signal::Continue
                } else {
                    self.fail(at, String::from_str("Stack slot out of range."))
                }
            },
            OpCode::OpGetGlobal => self.get_global(at),
            OpCode::OpDefineGlobal => self.define_global(at),
            OpCode::OpSetGlobal => self.set_global(at),
            OpCode::OpEqual => {
                let b = self.pop();
                let a = self.pop();
                let equal = match (&a, &b) {
                    (Some(x), Some(y)) => *x == *y,
                    (None, None) => true,
                    _ => false,
                };
                assert(self@ == old(self)@.drop(2)) by {
                    assert(self@.stack =~= old(self)@.drop(2).stack);
                }
                self.push(Value::Boolean(equal));
                Signal::Continue
            },
            OpCode::OpGreater | OpCode::OpLess => self.compare(at, op),
            OpCode::OpAdd | OpCode::OpSubtract | OpCode::OpMultiply | OpCode::OpDivide => {
                self.binary(at, op)
            },
            OpCode::OpNot => {
                match self.pop() {
                    Some(value) => {
                        self.push(Value::Boolean(value.is_falsey()));
                    },
                    None => {
                        assert(self@ == old(self)@) by {
                            assert(self@.stack =~= old(self)@.stack);
                        }
                    },
                }
                Signal::Continue
            },
            OpCode::OpNegate => {
                match self.pop() {
                    Some(Value::Number(bits)) => {
                        self.push(Value::Number(number_negate(bits)));
                        Signal::Continue
                    },
                    Some(_) => self.fail(at, String::from_str("Operand must be a number.")),
                    None => {
                        assert(self@ == old(self)@) by {
                            assert(self@.stack =~= old(self)@.stack);
                        }
                        Signal::Continue
                    },
                }
            },
            OpCode::OpPrint => {
                match self.pop() {
                    Some(value) => Signal::Print(value),
                    None => {
                        assert(self@ == old(self)@) by {
                            assert(self@.stack =~= old(self)@.stack);
                        }
                        self.fail(at, String::from_str("Stack underflow."))
                    },
                }
            },
            OpCode::OpJump => {
                let offset = self.read_two_bytes(at);
                self.jump_forward(at, offset);
                Signal::Continue
            },
            OpCode::OpJumpIfFalse => {
                let offset = self.read_two_bytes(at);
                let falsey = match self.peek(0) {
                    Some(value) => Some(value.is_falsey()),
                    None => None,
                };
                match falsey {
                    Some(true) => {
                        self.jump_forward(at, offset);
                        Signal::Continue
                    },
                    Some(false) => Signal::Continue,
                    None => self.fail(
                        at,
                        String::from_str("Stack should not be empty but is empty."),
                    ),
                }
            },
            OpCode::OpLoop => {
                let offset = self.read_two_bytes(at);
                if offset <= at + 3 {
                    self.ip = (at + 3 - offset) as u128;
                    Signal::Continue
                } else {
                    self.fail(at, String::from_str("Jump out of range."))
                }
            },
            OpCode::OpReturn => {
                self.ip = self.chunk.len() as u128;
                Signal::Done
            },
        }
    }

    /// Reads a global: pushes the value bound to the name that the operand
    /// refers to, or fails where the name is unbound.
    fn get_global(&mut self, at: usize) -> (signal: Signal)
        requires
            at + 2 <= old(self)@.chunk.code.len(),
        ensures
            (final(self)@, signal@) == old(self)@.execute(at as int, OpCode::OpGetGlobal),
    {
        match self.read_constant(at) {
            None => self.fail(at, String::from_str("Constant index out of range.")),
            Some(Value::Obj(object)) => {
                let name: &String = object.as_string();
                let found = match self.globals.get(name) {
                    Some(value) => Some(value.clone()),
                    None => None,
                };
                match found {
                    Some(value) => {
                        self.push(value);
                        Signal::Continue
                    },
                    None => self.fail(at, undefined_variable_message(name)),
                }
            },
            Some(_) => Signal::Continue,
        }
    }

    /// Defines a global: pops the top of the stack and binds it to the name
    /// that the operand refers to.
    fn define_global(&mut self, at: usize) -> (signal: Signal)
        requires
            at + 2 <= old(self)@.chunk.code.len(),
        ensures
            (final(self)@, signal@) == old(self)@.execute(at as int, OpCode::OpDefineGlobal),
    {
        match self.read_constant(at) {
            None => self.fail(at, String::from_str("Constant index out of range.")),
            Some(Value::Obj(object)) => {
                match self.pop() {
                    Some(value) => {
                        let name: String = object.as_string().clone();
                        self.globals.insert(name, value);
                        Signal::Continue
                    },
                    None => {
                        assert(self@ == old(self)@) by {
                            assert(self@.stack =~= old(self)@.stack);
                        }
                        self.fail(at, String::from_str("Stack underflow."))
                    },
                }
            },
            Some(_) => Signal::Continue,
        }
    }

    /// Assigns to a global: rebinds the name that the operand refers to to a
    /// copy of the top of the stack, or fails, binding nothing, where the
    /// name is unbound.
    fn set_global(&mut self, at: usize) -> (signal: Signal)
        requires
            at + 2 <= old(self)@.chunk.code.len(),
        ensures
            (final(self)@, signal@) == old(self)@.execute(at as int, OpCode::OpSetGlobal),
    {
        match self.read_constant(at) {
            None => self.fail(at, String::from_str("Constant index out of range.")),
            Some(Value::Obj(object)) => {
                let top = match self.peek(0) {
                    Some(value) => Some(value.clone()),
                    None => None,
                };
                match top {
                    None => self.fail(at, String::from_str("Stack underflow.")),
                    Some(value) => {
                        let name: &String = object.as_string();
                        if self.globals.contains(name) {
                            self.globals.insert(name.clone(), value);
                            Signal::Continue
                        } else {
                            self.fail(at, undefined_variable_message(name))
                        }
                    },
                }
            },
            Some(_) => Signal::Continue,
        }
    }

    /// Compares two numbers: pops both operands and pushes whether the first
    /// is greater, or less, than the second.
    fn compare(&mut self, at: usize, op: OpCode) -> (signal: Signal)
        requires
            op == OpCode::OpGreater || op == OpCode::OpLess,
        ensures
            (final(self)@, signal@) == old(self)@.execute(at as int, op),
    {
        let b = self.pop();
        let a = self.pop();
        assert(self@ == old(self)@.drop(2)) by {
            assert(self@.stack =~= old(self)@.drop(2).stack);
        }
        match (a, b) {
            (Some(Value::Number(x)), Some(Value::Number(y))) => {
                let holds = match op {
                    OpCode::OpLess => number_less(x, y),
                    _ => number_less(y, x),
                };
                self.push(Value::Boolean(holds));
                Signal::Continue
            },
            (Some(_), Some(_)) => self.fail(at, String::from_str("Operands must be numbers.")),
            _ => self.fail(at, String::from_str("Stack underflow.")),
        }
    }

    /// Pops the two operands of an arithmetic instruction. Two strings under
    /// an addition are concatenated here; two numbers are handed out to be
    /// combined.
    fn binary(&mut self, at: usize, op: OpCode) -> (signal: Signal)
        requires
            arithmetic_of(op) is Some,
        ensures
            (final(self)@, signal@) == old(self)@.execute(at as int, op),
    {
        let b = self.pop();
        let a = self.pop();
        assert(self@ == old(self)@.drop(2)) by {
            assert(self@.stack =~= old(self)@.drop(2).stack);
        }
        match (a, b) {
            (Some(Value::Number(x)), Some(Value::Number(y))) => {
                let operation = match op {
                    OpCode::OpAdd => Arithmetic::Add,
                    OpCode::OpSubtract => Arithmetic::Subtract,
                    OpCode::OpMultiply => Arithmetic::Multiply,
                    _ => Arithmetic::Divide,
                };
                Signal::Compute { op: operation, left: x, right: y }
            },
            (Some(Value::Obj(x)), Some(Value::Obj(y))) => {
                match op {
                    OpCode::OpAdd => {
                        let mut joined = String::new();
                        joined.append(x.as_string().as_str());
                        joined.append(y.as_string().as_str());
                        assert(joined@ =~= x@ + y@);
                        self.push(Value::Obj(Box::new(Obj::Str(joined))));
                        Signal::Continue
                    },
                    _ => self.fail(at, String::from_str("Operands must be numbers.")),
                }
            },
            (Some(_), Some(_)) => self.fail(at, String::from_str("Operands must be numbers.")),
            _ => self.fail(at, String::from_str("Stack underflow.")),
        }
    }

    /// Executes instructions until one of them reports something other than
    /// `Continue`, or until `fuel` instructions have been executed, and
    /// returns the last report.
    pub fn run(&mut self, fuel: usize) -> (signal: Signal)
        ensures
            (final(self)@, signal@) == old(self)@.run(fuel as nat),
    {
        let mut left = fuel;
        while left > 0
            invariant
                self@.run(left as nat) == old(self)@.run(fuel as nat),
            decreases left,
        {
            let signal = self.step();
            match signal {
                Signal::Continue => {
                    left -= 1;
                },
                _ => {
                    return signal;
                },
            }
        }
        Signal::Continue
    }
}

/// Builds the message for a global that has no binding.
fn undefined_variable_message(name: &String) -> (res: String)
    ensures
        res@ == undefined_variable(name@),
{
    let mut message = String::from_str("Undefined variable '");
    message.append(name.as_str());
    message.append("'");
    message
}

impl VmView {
    /// The machine with `chunk` for program, ready to run it from its first
    /// instruction with an empty stack. The globals stay.
    pub open spec fn load(self, chunk: ChunkView) -> VmView {
        VmView { stack: Seq::empty(), ip: 0, chunk, fault: None, ..self }
    }

    /// Interpreting a source whose compilation ended in `unit`. Where the
    /// compiler found an error, the result is `CompileError` and the machine
    /// is left without program. Otherwise the program is loaded and run for
    /// at most `fuel` instructions, up to its first report: a runtime error
    /// is the result `RuntimeError`, any other report is handed out.
    pub open spec fn interpret(self, unit: Unit, fuel: nat) -> (
        VmView,
        Result<SignalView, InterpretError>,
    ) {
        let told = VmView { diagnostics: unit.parser.diagnostics, ..self };
        if unit.parser.had_error {
            (told.load(ChunkView::empty()), Err(InterpretError::CompileError))
        } else {
            let (ended, signal) = told.load(unit.state.chunk).run(fuel);
            match signal {
                SignalView::RuntimeError { .. } => (ended, Err(InterpretError::RuntimeError)),
                _ => (ended, Ok(signal)),
            }
        }
    }

    /// The machine as it is made: no program, an empty stack, no globals, and
    /// nothing reported.
    pub open spec fn fresh() -> VmView {
        VmView {
            stack: Seq::empty(),
            ip: 0,
            chunk: ChunkView::empty(),
            globals: Map::empty(),
            diagnostics: Seq::empty(),
            fault: None,
        }
    }
}

} // verus!
