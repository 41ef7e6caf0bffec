use lox_rust::chunk::{Chunk, OpCode};
use lox_rust::debug::{
    byte_instruction, constant_instruction, disassemble_chunk, disassemble_instruction,
    jump_instruction, simple_instruction, Disassembled, Instruction,
};
use lox_rust::error::{error_line, report, report_err, report_parse_err, report_scan_err, Error};
use lox_rust::lox::{Action, Lox};
use lox_rust::text::{chars_of, decimal_string, push_decimal, string_of};
use lox_rust::token::{Token, TokenType};
use lox_rust::value::Value;

fn chunk_of(code: &[(u8, u32)]) -> Chunk {
    let mut chunk = Chunk::new();
    for (byte, line) in code {
        chunk.write(*byte, *line);
    }
    chunk
}

#[test]
fn a_chunk_is_listed_instruction_by_instruction() {
    let mut chunk = chunk_of(&[
        (OpCode::OpConstant.to_byte(), 1),
        (0, 1),
        (OpCode::OpGetLocal.to_byte(), 1),
        (7, 1),
        (OpCode::OpJumpIfFalse.to_byte(), 2),
        (1, 2),
        (2, 2),
        (OpCode::OpLoop.to_byte(), 2),
        (0, 2),
        (10, 2),
        (200, 3),
        (OpCode::OpReturn.to_byte(), 3),
    ]);
    let _ = chunk.add_constant(Value::Nil);
    let listing = disassemble_chunk(&chunk);
    assert_eq!(
        listing,
        vec![
            Disassembled {
                offset: 0,
                line: 1,
                same_line: false,
                instruction: Instruction::Constant(OpCode::OpConstant, 0),
                next: 2,
            },
            Disassembled {
                offset: 2,
                line: 1,
                same_line: true,
                instruction: Instruction::Byte(OpCode::OpGetLocal, 7),
                next: 4,
            },
            Disassembled {
                offset: 4,
                line: 2,
                same_line: false,
                instruction: Instruction::Jump(OpCode::OpJumpIfFalse, Some(4 + 3 + 258)),
                next: 7,
            },
            Disassembled {
                offset: 7,
                line: 2,
                same_line: true,
                instruction: Instruction::Jump(OpCode::OpLoop, Some(0)),
                next: 10,
            },
            Disassembled {
                offset: 10,
                line: 3,
                same_line: false,
                instruction: Instruction::Unknown(200),
                next: 11,
            },
            Disassembled {
                offset: 11,
                line: 3,
                same_line: true,
                instruction: Instruction::Simple(OpCode::OpReturn),
                next: 12,
            },
        ]
    );
    assert_eq!(disassemble_instruction(&chunk, 7), listing[3]);
}

#[test]
fn an_empty_chunk_has_an_empty_listing() {
    assert!(disassemble_chunk(&Chunk::new()).is_empty());
}

#[test]
fn a_cut_off_instruction_ends_the_listing() {
    let chunk = chunk_of(&[(OpCode::OpNil.to_byte(), 1), (OpCode::OpJump.to_byte(), 1), (0, 1)]);
    let listing = disassemble_chunk(&chunk);
    assert_eq!(listing.len(), 2);
    assert_eq!(listing[1].instruction, Instruction::Truncated(OpCode::OpJump));
    assert_eq!(listing[1].next, 3);
}

#[test]
fn a_loop_before_the_start_has_no_target() {
    let chunk = chunk_of(&[(OpCode::OpLoop.to_byte(), 1), (0, 1), (4, 1)]);
    assert_eq!(
        disassemble_instruction(&chunk, 0).instruction,
        Instruction::Jump(OpCode::OpLoop, None)
    );
}

#[test]
fn the_pieces_of_the_disassembler() {
    let chunk = chunk_of(&[(0, 1), (9, 1), (8, 1), (1, 1)]);
    assert_eq!(simple_instruction(OpCode::OpNil, 5), (Instruction::Simple(OpCode::OpNil), 6));
    assert_eq!(
        byte_instruction(OpCode::OpSetLocal, &chunk, 1),
        (Instruction::Byte(OpCode::OpSetLocal, 8), 3)
    );
    assert_eq!(
        constant_instruction(OpCode::OpGetGlobal, &chunk, 0),
        (Instruction::Constant(OpCode::OpGetGlobal, 9), 2)
    );
    assert_eq!(
        jump_instruction(OpCode::OpJump, 1, &chunk, 1),
        (Instruction::Jump(OpCode::OpJump, Some(1 + 3 + 8 * 256 + 1)), 4)
    );
    assert_eq!(
        jump_instruction(OpCode::OpLoop, -1, &chunk, 1),
        (Instruction::Jump(OpCode::OpLoop, None), 4)
    );
}

#[test]
fn reports_are_lines_of_text() {
    assert_eq!(error_line(3, "Unterminated String"), "[line 3] Error : Unterminated String");
    assert_eq!(report(12, "at end", "Expect expression."), "[line 12] Error at end: Expect expression.");
    assert_eq!(report_scan_err("bad", 4294967295), "[line 4294967295] Error : bad");
    let token = Token::new(TokenType::Plus, "+".to_string(), 2);
    assert_eq!(
        report_parse_err("Expect expression.", &token),
        "Parse error for token: Token(type: Plus lexeme: + line: 2), Expect expression."
    );
    let scan = Error::Scan { message: "Unexpected character: @".to_string(), line: 7 };
    assert_eq!(report_err(&scan), "[line 7] Error : Unexpected character: @");
    let parse = Error::Parse { message: "m".to_string(), token };
    assert_eq!(report_err(&parse), "Parse error for token: Token(type: Plus lexeme: + line: 2), m");
}

#[test]
fn decimal_notation() {
    assert_eq!(decimal_string(0), "0");
    assert_eq!(decimal_string(7), "7");
    assert_eq!(decimal_string(10), "10");
    assert_eq!(decimal_string(1234567890), "1234567890");
    assert_eq!(decimal_string(u64::MAX), "18446744073709551615");
    let mut text = String::from("n = ");
    push_decimal(&mut text, 405);
    assert_eq!(text, "n = 405");
}

#[test]
fn strings_and_their_characters() {
    assert_eq!(chars_of("aé\u{1F600}b"), vec!['a', 'é', '\u{1F600}', 'b']);
    assert!(chars_of("").is_empty());
    let chars = vec!['h', 'é', 'l', 'l', 'o'];
    assert_eq!(string_of(&chars, 1, 4), "éll");
    assert_eq!(string_of(&chars, 2, 2), "");
    assert_eq!(string_of(&chars, 0, 5), "héllo");
}

#[test]
fn the_arguments_decide_what_to_do() {
    let prompt = Lox::new(vec!["lox".to_string()]);
    assert!(matches!(prompt.run_main(), Action::RunPrompt));
    assert!(matches!(Lox::new(Vec::new()).run_main(), Action::RunPrompt));
    let script = Lox::new(vec!["lox".to_string(), "a.lox".to_string()]);
    match script.run_main() {
        Action::RunFile(path) => assert_eq!(path, "a.lox"),
        other => panic!("unexpected {:?}", other),
    }
    let many = Lox::new(vec!["lox".to_string(), "a".to_string(), "b".to_string()]);
    assert!(matches!(many.run_main(), Action::Usage));
    assert_eq!(prompt.run("print 1;".to_string()), "Got Source:\nprint 1;");
}
