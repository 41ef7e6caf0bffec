use lox_rust::chunk::{Chunk, OpCode};
use lox_rust::globals::Globals;
use lox_rust::value::Value;
use lox_rust::vm::{Arithmetic, Fault, InterpretError, Signal, VM};

fn number(value: f64) -> Value {
    Value::Number(value.to_bits())
}

/// A chunk with the given constants and code, every byte on line 1.
fn assemble(constants: Vec<Value>, code: &[u8]) -> Chunk {
    let mut chunk = Chunk::new();
    for constant in constants {
        let _ = chunk.add_constant(constant);
    }
    for byte in code {
        chunk.write(*byte, 1);
    }
    chunk
}

fn machine(constants: Vec<Value>, code: &[u8]) -> VM {
    let mut vm = VM::new();
    vm.load(assemble(constants, code));
    vm
}

fn stack_of(vm: &VM) -> Vec<Value> {
    let depth = vm.stack_len();
    (0..depth).rev().map(|below| vm.peek(below).unwrap().clone()).collect()
}

fn is_continue(signal: &Signal) -> bool {
    matches!(signal, Signal::Continue)
}

fn failure(signal: Signal) -> (String, u32) {
    match signal {
        Signal::RuntimeError { message, line } => (message, line),
        other => panic!("not a failure: {:?}", other),
    }
}

const CONSTANT: u8 = 0;
const NIL: u8 = 1;
const TRUE: u8 = 2;
const FALSE: u8 = 3;
const POP: u8 = 4;
const GET_LOCAL: u8 = 5;
const SET_LOCAL: u8 = 6;
const GET_GLOBAL: u8 = 7;
const DEFINE_GLOBAL: u8 = 8;
const SET_GLOBAL: u8 = 9;
const EQUAL: u8 = 10;
const GREATER: u8 = 11;
const LESS: u8 = 12;
const ADD: u8 = 13;
const SUBTRACT: u8 = 14;
const MULTIPLY: u8 = 15;
const DIVIDE: u8 = 16;
const NOT: u8 = 17;
const NEGATE: u8 = 18;
const PRINT: u8 = 19;
const JUMP: u8 = 20;
const JUMP_IF_FALSE: u8 = 21;
const LOOP: u8 = 22;
const RETURN: u8 = 23;

#[test]
fn the_byte_constants_match_the_opcodes() {
    assert_eq!(OpCode::OpConstant.to_byte(), CONSTANT);
    assert_eq!(OpCode::OpPop.to_byte(), POP);
    assert_eq!(OpCode::OpSetGlobal.to_byte(), SET_GLOBAL);
    assert_eq!(OpCode::OpDivide.to_byte(), DIVIDE);
    assert_eq!(OpCode::OpPrint.to_byte(), PRINT);
    assert_eq!(OpCode::OpLoop.to_byte(), LOOP);
    assert_eq!(OpCode::OpReturn.to_byte(), RETURN);
}

#[test]
fn a_new_machine_has_halted() {
    let mut vm = VM::new();
    assert!(vm.is_halted());
    assert_eq!(vm.stack_len(), 0);
    assert!(matches!(vm.step(), Signal::Done));
    assert!(matches!(vm.run(10), Signal::Done));
}

#[test]
fn push_pop_and_peek() {
    let mut vm = VM::new();
    assert!(vm.pop().is_none());
    assert!(vm.peek(0).is_none());
    vm.push(number(1.0));
    vm.push(Value::Nil);
    assert_eq!(vm.peek(0), Some(&Value::Nil));
    assert_eq!(vm.peek(1), Some(&number(1.0)));
    assert!(vm.peek(2).is_none());
    assert_eq!(vm.pop(), Some(Value::Nil));
    assert_eq!(vm.stack_len(), 1);
    vm.reset();
    assert_eq!(vm.stack_len(), 0);
    assert_eq!(vm.ip(), 0);
}

#[test]
fn literals_and_constants_are_pushed() {
    let mut vm = machine(vec![Value::string("k")], &[NIL, TRUE, FALSE, CONSTANT, 0, RETURN]);
    for _ in 0..4 {
        assert!(is_continue(&vm.step()));
    }
    assert_eq!(
        stack_of(&vm),
        vec![Value::Nil, Value::Boolean(true), Value::Boolean(false), Value::string("k")]
    );
    assert_eq!(vm.ip(), 5);
    assert!(matches!(vm.step(), Signal::Done));
    assert!(vm.is_halted());
    assert!(matches!(vm.step(), Signal::Done));
}

#[test]
fn running_off_the_end_of_the_code_is_success() {
    let mut vm = machine(vec![], &[NIL, POP]);
    assert!(matches!(vm.run(100), Signal::Done));
    assert_eq!(vm.stack_len(), 0);
}

#[test]
fn pop_not_and_negate_leave_an_empty_stack_alone() {
    let mut vm = machine(vec![], &[POP, NOT, NEGATE, RETURN]);
    assert!(matches!(vm.run(100), Signal::Done));
    assert_eq!(vm.stack_len(), 0);
}

#[test]
fn locals_are_read_and_written_by_slot() {
    let mut vm = machine(vec![], &[NIL, TRUE, GET_LOCAL, 0, SET_LOCAL, 1, RETURN]);
    assert!(matches!(vm.run(100), Signal::Done));
    assert_eq!(stack_of(&vm), vec![Value::Nil, Value::Nil, Value::Nil]);
}

#[test]
fn a_slot_beyond_the_stack_is_a_runtime_error() {
    let mut vm = machine(vec![], &[NIL, GET_LOCAL, 1]);
    assert_eq!(failure(vm.run(100)), ("Stack slot out of range.".to_string(), 1));
    let mut vm = machine(vec![], &[SET_LOCAL, 0]);
    assert_eq!(failure(vm.run(100)), ("Stack slot out of range.".to_string(), 1));
}

#[test]
fn globals_are_defined_read_and_assigned() {
    let mut vm = machine(
        vec![Value::string("g")],
        &[TRUE, DEFINE_GLOBAL, 0, GET_GLOBAL, 0, NIL, SET_GLOBAL, 0, RETURN],
    );
    assert!(matches!(vm.run(100), Signal::Done));
    assert_eq!(stack_of(&vm), vec![Value::Boolean(true), Value::Nil]);
    assert_eq!(vm.global(&"g".to_string()), Some(&Value::Nil));
    assert!(vm.global(&"h".to_string()).is_none());
}

#[test]
fn defining_a_global_again_overwrites_it() {
    let mut vm = machine(
        vec![Value::string("g")],
        &[TRUE, DEFINE_GLOBAL, 0, FALSE, DEFINE_GLOBAL, 0, RETURN],
    );
    assert!(matches!(vm.run(100), Signal::Done));
    assert_eq!(vm.global(&"g".to_string()), Some(&Value::Boolean(false)));
    assert_eq!(vm.stack_len(), 0);
}

#[test]
fn an_undefined_global_cannot_be_read() {
    let mut vm = machine(vec![Value::string("missing")], &[GET_GLOBAL, 0, RETURN]);
    assert_eq!(failure(vm.run(100)), ("Undefined variable 'missing'".to_string(), 1));
    assert!(vm.is_halted());
}

#[test]
fn an_undefined_global_cannot_be_assigned_and_stays_undefined() {
    let mut vm = machine(vec![Value::string("missing")], &[NIL, SET_GLOBAL, 0, RETURN]);
    assert_eq!(failure(vm.run(100)), ("Undefined variable 'missing'".to_string(), 1));
    assert!(vm.global(&"missing".to_string()).is_none());
    assert!(matches!(vm.step(), Signal::Done));
}

#[test]
fn a_global_instruction_with_a_name_that_is_no_string_does_nothing() {
    let mut vm = machine(vec![Value::Nil], &[TRUE, GET_GLOBAL, 0, DEFINE_GLOBAL, 0, SET_GLOBAL, 0]);
    assert!(matches!(vm.run(100), Signal::Done));
    assert_eq!(stack_of(&vm), vec![Value::Boolean(true)]);
}

#[test]
fn equality_pushes_a_boolean() {
    let mut vm = machine(
        vec![number(1.0), Value::string("1")],
        &[CONSTANT, 0, CONSTANT, 0, EQUAL, CONSTANT, 0, CONSTANT, 1, EQUAL, NIL, NIL, EQUAL],
    );
    assert!(matches!(vm.run(100), Signal::Done));
    assert_eq!(
        stack_of(&vm),
        vec![Value::Boolean(true), Value::Boolean(false), Value::Boolean(true)]
    );
}

#[test]
fn equality_of_missing_operands() {
    let mut vm = machine(vec![], &[EQUAL]);
    assert!(matches!(vm.run(100), Signal::Done));
    assert_eq!(stack_of(&vm), vec![Value::Boolean(true)]);
    let mut vm = machine(vec![], &[NIL, EQUAL]);
    assert!(matches!(vm.run(100), Signal::Done));
    assert_eq!(stack_of(&vm), vec![Value::Boolean(false)]);
}

#[test]
fn comparison_of_numbers() {
    let mut vm = machine(
        vec![number(1.0), number(2.0)],
        &[CONSTANT, 0, CONSTANT, 1, LESS, CONSTANT, 0, CONSTANT, 1, GREATER, CONSTANT, 1, CONSTANT, 1, LESS],
    );
    assert!(matches!(vm.run(100), Signal::Done));
    assert_eq!(
        stack_of(&vm),
        vec![Value::Boolean(true), Value::Boolean(false), Value::Boolean(false)]
    );
}

#[test]
fn comparison_needs_numbers() {
    for operator in [GREATER, LESS] {
        let mut vm = machine(vec![number(1.0)], &[CONSTANT, 0, NIL, operator]);
        assert_eq!(failure(vm.run(100)), ("Operands must be numbers.".to_string(), 1));
        let mut vm = machine(vec![Value::string("a")], &[CONSTANT, 0, CONSTANT, 0, operator]);
        assert_eq!(failure(vm.run(100)), ("Operands must be numbers.".to_string(), 1));
    }
}

#[test]
fn arithmetic_on_numbers_is_handed_out() {
    let operators = [
        (ADD, Arithmetic::Add),
        (SUBTRACT, Arithmetic::Subtract),
        (MULTIPLY, Arithmetic::Multiply),
        (DIVIDE, Arithmetic::Divide),
    ];
    for (byte, expected) in operators {
        let mut vm = machine(vec![number(6.0), number(3.0)], &[CONSTANT, 0, CONSTANT, 1, byte, RETURN]);
        match vm.run(100) {
            Signal::Compute { op, left, right } => {
                assert_eq!(op, expected);
                assert_eq!(left, 6.0f64.to_bits());
                assert_eq!(right, 3.0f64.to_bits());
            }
            other => panic!("unexpected {:?}", other),
        }
        assert_eq!(vm.stack_len(), 0);
        assert_eq!(vm.ip(), 5);
        vm.push(number(9.0));
        assert!(matches!(vm.run(100), Signal::Done));
        assert_eq!(stack_of(&vm), vec![number(9.0)]);
    }
}

#[test]
fn addition_concatenates_strings() {
    let mut vm = machine(
        vec![Value::string("foo"), Value::string("bar")],
        &[CONSTANT, 0, CONSTANT, 1, ADD, RETURN],
    );
    assert!(matches!(vm.run(100), Signal::Done));
    assert_eq!(stack_of(&vm), vec![Value::string("foobar")]);
}

#[test]
fn arithmetic_needs_numbers() {
    for operator in [SUBTRACT, MULTIPLY, DIVIDE] {
        let mut vm = machine(
            vec![Value::string("a"), Value::string("b")],
            &[CONSTANT, 0, CONSTANT, 1, operator],
        );
        assert_eq!(failure(vm.run(100)), ("Operands must be numbers.".to_string(), 1));
    }
    for operator in [ADD, SUBTRACT, MULTIPLY, DIVIDE] {
        let mut vm = machine(vec![number(1.0)], &[CONSTANT, 0, TRUE, operator]);
        assert_eq!(failure(vm.run(100)), ("Operands must be numbers.".to_string(), 1));
        assert_eq!(vm.stack_len(), 0);
    }
}

#[test]
fn not_pushes_falsiness() {
    let mut vm = machine(vec![number(0.0)], &[NIL, NOT, CONSTANT, 0, NOT, TRUE, NOT]);
    assert!(matches!(vm.run(100), Signal::Done));
    assert_eq!(
        stack_of(&vm),
        vec![Value::Boolean(true), Value::Boolean(false), Value::Boolean(false)]
    );
}

#[test]
fn negate_flips_the_sign_of_a_number() {
    let mut vm = machine(vec![number(2.5), number(0.0)], &[CONSTANT, 0, NEGATE, CONSTANT, 1, NEGATE]);
    assert!(matches!(vm.run(100), Signal::Done));
    assert_eq!(stack_of(&vm), vec![number(-2.5), number(0.0)]);
    assert_eq!(vm.peek(0), Some(&Value::Number((-0.0f64).to_bits())));
    assert_eq!(vm.peek(1), Some(&Value::Number((-2.5f64).to_bits())));
}

#[test]
fn negate_needs_a_number() {
    let mut vm = machine(vec![], &[NIL, RETURN, TRUE, NEGATE]);
    vm.load(assemble(vec![], &[TRUE, NEGATE]));
    assert_eq!(failure(vm.run(100)), ("Operand must be a number.".to_string(), 1));
}

#[test]
fn print_hands_the_value_out() {
    let mut vm = machine(vec![Value::string("out")], &[CONSTANT, 0, PRINT, RETURN]);
    match vm.run(100) {
        Signal::Print(value) => assert_eq!(value, Value::string("out")),
        other => panic!("unexpected {:?}", other),
    }
    assert_eq!(vm.stack_len(), 0);
    assert!(matches!(vm.run(100), Signal::Done));
}

#[test]
fn a_jump_moves_forward() {
    let mut vm = machine(vec![], &[JUMP, 0, 2, TRUE, TRUE, NIL, RETURN]);
    assert!(matches!(vm.run(100), Signal::Done));
    assert_eq!(stack_of(&vm), vec![Value::Nil]);
}

#[test]
fn a_jump_offset_is_big_endian() {
    let mut code = vec![JUMP, 1, 2];
    code.extend(std::iter::repeat(TRUE).take(258));
    code.push(NIL);
    let mut vm = machine(vec![], &code);
    assert!(is_continue(&vm.step()));
    assert_eq!(vm.ip(), 3 + 258);
    assert!(matches!(vm.run(100), Signal::Done));
    assert_eq!(stack_of(&vm), vec![Value::Nil]);
}

#[test]
fn a_jump_past_the_end_halts_the_machine_where_it_lands() {
    let mut vm = machine(vec![], &[JUMP, 255, 255, TRUE]);
    assert!(is_continue(&vm.step()));
    assert_eq!(vm.ip(), 3 + 65535);
    assert!(vm.is_halted());
    assert!(matches!(vm.step(), Signal::Done));
    assert_eq!(vm.ip(), 3 + 65535);
    assert_eq!(vm.stack_len(), 0);
    let mut vm = machine(vec![], &[FALSE, JUMP_IF_FALSE, 1, 0, NIL]);
    assert!(matches!(vm.run(100), Signal::Done));
    assert_eq!(vm.ip(), 4 + 256);
    assert_eq!(stack_of(&vm), vec![Value::Boolean(false)]);
}

#[test]
fn a_conditional_jump_peeks() {
    let mut vm = machine(vec![], &[FALSE, JUMP_IF_FALSE, 0, 1, NIL, RETURN]);
    assert!(matches!(vm.run(100), Signal::Done));
    assert_eq!(stack_of(&vm), vec![Value::Boolean(false)]);
    let mut vm = machine(vec![], &[TRUE, JUMP_IF_FALSE, 0, 1, NIL, RETURN]);
    assert!(matches!(vm.run(100), Signal::Done));
    assert_eq!(stack_of(&vm), vec![Value::Boolean(true), Value::Nil]);
}

#[test]
fn a_conditional_jump_needs_a_value() {
    let mut vm = machine(vec![], &[JUMP_IF_FALSE, 0, 1, NIL]);
    assert_eq!(
        failure(vm.run(100)),
        ("Stack should not be empty but is empty.".to_string(), 1)
    );
}

#[test]
fn a_loop_moves_backward_and_fuel_bounds_the_run() {
    let mut vm = machine(vec![], &[NIL, POP, LOOP, 0, 5]);
    assert!(is_continue(&vm.run(1000)));
    assert!(!vm.is_halted());
    assert!(is_continue(&vm.run(3)));
    assert!(is_continue(&vm.run(0)));
}

#[test]
fn fuel_counts_instructions() {
    let mut vm = machine(vec![], &[NIL, TRUE, FALSE, RETURN]);
    assert!(is_continue(&vm.run(2)));
    assert_eq!(vm.stack_len(), 2);
    assert_eq!(vm.ip(), 2);
    assert!(is_continue(&vm.run(1)));
    assert!(matches!(vm.run(1), Signal::Done));
}

#[test]
fn a_loop_before_the_start_is_a_runtime_error() {
    let mut vm = machine(vec![], &[LOOP, 0, 4]);
    assert_eq!(failure(vm.run(100)), ("Jump out of range.".to_string(), 1));
    let mut vm = machine(vec![], &[LOOP, 0, 3, RETURN]);
    assert!(is_continue(&vm.step()));
    assert_eq!(vm.ip(), 0);
}

#[test]
fn an_unknown_opcode_is_a_runtime_error() {
    let mut vm = machine(vec![], &[NIL, 24]);
    assert_eq!(failure(vm.run(100)), ("Unknown opcode.".to_string(), 1));
    let mut vm = machine(vec![], &[255]);
    assert_eq!(failure(vm.run(100)), ("Unknown opcode.".to_string(), 1));
    assert!(vm.is_halted());
}

#[test]
fn malformed_code_is_a_runtime_error() {
    let mut vm = machine(vec![], &[CONSTANT]);
    assert_eq!(failure(vm.run(100)), ("Truncated instruction.".to_string(), 1));
    let mut vm = machine(vec![], &[JUMP, 0]);
    assert_eq!(failure(vm.run(100)), ("Truncated instruction.".to_string(), 1));
    let mut vm = machine(vec![], &[CONSTANT, 0]);
    assert_eq!(failure(vm.run(100)), ("Constant index out of range.".to_string(), 1));
    let mut vm = machine(vec![], &[GET_GLOBAL, 3]);
    assert_eq!(failure(vm.run(100)), ("Constant index out of range.".to_string(), 1));
    let mut vm = machine(vec![], &[PRINT]);
    assert_eq!(failure(vm.run(100)), ("Stack underflow.".to_string(), 1));
    let mut vm = machine(vec![], &[NIL, ADD]);
    assert_eq!(failure(vm.run(100)), ("Stack underflow.".to_string(), 1));
    let mut vm = machine(vec![], &[LESS]);
    assert_eq!(failure(vm.run(100)), ("Stack underflow.".to_string(), 1));
    let mut vm = machine(vec![Value::string("g")], &[DEFINE_GLOBAL, 0]);
    assert_eq!(failure(vm.run(100)), ("Stack underflow.".to_string(), 1));
    let mut vm = machine(vec![Value::string("g")], &[SET_GLOBAL, 0]);
    assert_eq!(failure(vm.run(100)), ("Stack underflow.".to_string(), 1));
}

#[test]
fn a_runtime_error_names_the_line_of_its_instruction() {
    let mut chunk = Chunk::new();
    chunk.write(NIL, 3);
    chunk.write(TRUE, 4);
    chunk.write(LESS, 7);
    chunk.write(RETURN, 8);
    let mut vm = VM::new();
    vm.load(chunk);
    assert_eq!(failure(vm.run(100)), ("Operands must be numbers.".to_string(), 7));
}

#[test]
fn signals_tell_how_an_interpretation_ended() {
    assert_eq!(Signal::Continue.outcome(), None);
    assert_eq!(Signal::Print(Value::Nil).outcome(), None);
    assert_eq!(Signal::Done.outcome(), Some(Ok(())));
    let failed = Signal::RuntimeError { message: "m".to_string(), line: 1 };
    assert_eq!(failed.outcome(), Some(Err(InterpretError::RuntimeError)));
}

#[test]
fn a_source_that_does_not_compile_leaves_the_machine_halted() {
    let mut vm = VM::new();
    vm.push(Value::Nil);
    assert_eq!(
        vm.interpret("print ;".to_string(), &Vec::new(), 100),
        Err(InterpretError::CompileError)
    );
    assert!(vm.is_halted());
    assert_eq!(vm.stack_len(), 0);
    assert_eq!(vm.chunk().len(), 0);
    assert_eq!(vm.diagnostics().len(), 1);
    assert_eq!(vm.diagnostics()[0].message, "Expect expression.");
    assert!(vm.fault().is_none());
    assert_eq!(
        vm.interpret("print nil;".to_string(), &Vec::new(), 100),
        Ok(Signal::Print(Value::Nil))
    );
    assert!(vm.diagnostics().is_empty());
    assert!(!vm.is_halted());
    assert_eq!(vm.run(100), Signal::Done);
}

#[test]
fn interpreting_runs_to_the_first_report() {
    let mut vm = VM::new();
    assert_eq!(vm.interpret("var a = \"x\";".to_string(), &Vec::new(), 100), Ok(Signal::Done));
    assert_eq!(vm.global(&"a".to_string()), Some(&Value::string("x")));
    assert_eq!(
        vm.interpret("print a + \"y\"; print a;".to_string(), &Vec::new(), 100),
        Ok(Signal::Print(Value::string("xy")))
    );
    assert_eq!(vm.run(100), Signal::Print(Value::string("x")));
    assert_eq!(vm.run(100), Signal::Done);
    assert_eq!(vm.interpret("print a;".to_string(), &Vec::new(), 1), Ok(Signal::Continue));
    assert_eq!(vm.run(1), Signal::Print(Value::string("x")));
}

#[test]
fn a_program_that_fails_is_a_runtime_error_and_the_fault_is_kept() {
    let mut vm = VM::new();
    for source in ["print \"foo\" + nil;", "\n\nprint b;", "b = nil;"] {
        assert_eq!(
            vm.interpret(source.to_string(), &Vec::new(), 100),
            Err(InterpretError::RuntimeError)
        );
        assert!(vm.is_halted());
        assert!(vm.fault().is_some());
        assert!(vm.global(&"b".to_string()).is_none());
    }
    assert_eq!(
        vm.fault(),
        Some(&Fault { message: "Undefined variable 'b'".to_string(), line: 1 })
    );
    assert_eq!(
        vm.interpret("\n\nprint b;".to_string(), &Vec::new(), 100),
        Err(InterpretError::RuntimeError)
    );
    assert_eq!(
        vm.fault(),
        Some(&Fault { message: "Undefined variable 'b'".to_string(), line: 3 })
    );
    assert_eq!(vm.interpret("print nil;".to_string(), &Vec::new(), 100), Ok(Signal::Print(Value::Nil)));
    assert!(vm.fault().is_none());
}

#[test]
fn reset_forgets_a_fault() {
    let mut vm = machine(vec![], &[NIL, NEGATE]);
    assert_eq!(failure(vm.run(100)), ("Operand must be a number.".to_string(), 1));
    assert_eq!(
        vm.fault(),
        Some(&Fault { message: "Operand must be a number.".to_string(), line: 1 })
    );
    vm.reset();
    assert!(vm.fault().is_none());
    assert_eq!(vm.ip(), 0);
    assert!(!vm.is_halted());
}

#[test]
fn the_table_of_globals() {
    let mut globals = Globals::new();
    let name = "a".to_string();
    assert!(!globals.contains(&name));
    assert!(globals.get(&name).is_none());
    globals.insert(name.clone(), Value::Nil);
    globals.insert("b".to_string(), Value::Boolean(true));
    globals.insert(name.clone(), Value::string("again"));
    assert!(globals.contains(&name));
    assert_eq!(globals.get(&name), Some(&Value::string("again")));
    assert_eq!(globals.get(&"b".to_string()), Some(&Value::Boolean(true)));
}
