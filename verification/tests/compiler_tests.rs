use lox_rust::chunk::{Chunk, OpCode};
use lox_rust::compiler::diagnostic::{Diagnostic, Place};
use lox_rust::compiler::parser::{NumberLiteral, Parser};
use lox_rust::compiler::rules::{ParseFn, ParseRule, Precedence};
use lox_rust::compiler::scope::{Compiler, Local};
use lox_rust::scanner::number_literals;
use lox_rust::token::TokenType;
use lox_rust::value::Value;

fn number_table(source: &str) -> Vec<NumberLiteral> {
    number_literals(source.to_string())
        .into_iter()
        .map(|lexeme| {
            let bits = lexeme.parse::<f64>().unwrap().to_bits();
            NumberLiteral { lexeme, bits }
        })
        .collect()
}

/// Compiles `source` into a fresh chunk.
fn compile(source: &str) -> (Result<(), ()>, Chunk, Vec<Diagnostic>) {
    let mut parser = Parser::new(source.to_string());
    let mut chunk = Chunk::new();
    let result = parser.compile(&mut chunk, &number_table(source));
    assert_eq!(result.is_err(), parser.had_error());
    (result, chunk, parser.into_diagnostics())
}

fn code_of(source: &str) -> Vec<u8> {
    let (result, chunk, diagnostics) = compile(source);
    assert_eq!(result, Ok(()), "{:?}", diagnostics);
    assert!(diagnostics.is_empty());
    assert_eq!(chunk.lines.len(), chunk.code.len());
    chunk.code
}

fn messages_of(source: &str) -> Vec<String> {
    let (result, _, diagnostics) = compile(source);
    assert_eq!(result, Err(()));
    assert!(!diagnostics.is_empty());
    diagnostics.into_iter().map(|d| d.message).collect()
}

fn op(code: OpCode) -> u8 {
    code.to_byte()
}

#[test]
fn an_empty_program_is_one_return() {
    assert_eq!(code_of(""), vec![op(OpCode::OpReturn)]);
    assert_eq!(code_of("  // nothing here\n"), vec![op(OpCode::OpReturn)]);
}

#[test]
fn operands_come_before_their_operator() {
    let (result, chunk, _) = compile("print 1 + 2 * 3;");
    assert_eq!(result, Ok(()));
    assert_eq!(
        chunk.code,
        vec![
            op(OpCode::OpConstant),
            0,
            op(OpCode::OpConstant),
            1,
            op(OpCode::OpConstant),
            2,
            op(OpCode::OpMultiply),
            op(OpCode::OpAdd),
            op(OpCode::OpPrint),
            op(OpCode::OpReturn),
        ]
    );
    assert_eq!(
        chunk.value_array.values,
        vec![
            Value::Number(1.0f64.to_bits()),
            Value::Number(2.0f64.to_bits()),
            Value::Number(3.0f64.to_bits()),
        ]
    );
}

#[test]
fn operators_of_one_level_associate_to_the_left() {
    assert_eq!(
        code_of("2 - 3 - 4;"),
        vec![
            op(OpCode::OpConstant),
            0,
            op(OpCode::OpConstant),
            1,
            op(OpCode::OpSubtract),
            op(OpCode::OpConstant),
            2,
            op(OpCode::OpSubtract),
            op(OpCode::OpPop),
            op(OpCode::OpReturn),
        ]
    );
}

#[test]
fn comparison_binds_tighter_than_equality() {
    assert_eq!(
        code_of("true == 2 > 1;"),
        vec![
            op(OpCode::OpTrue),
            op(OpCode::OpConstant),
            0,
            op(OpCode::OpConstant),
            1,
            op(OpCode::OpGreater),
            op(OpCode::OpEqual),
            op(OpCode::OpPop),
            op(OpCode::OpReturn),
        ]
    );
    assert_eq!(
        code_of("1 < 2 != false;"),
        vec![
            op(OpCode::OpConstant),
            0,
            op(OpCode::OpConstant),
            1,
            op(OpCode::OpLess),
            op(OpCode::OpFalse),
            op(OpCode::OpEqual),
            op(OpCode::OpNot),
            op(OpCode::OpPop),
            op(OpCode::OpReturn),
        ]
    );
}

#[test]
fn grouping_overrides_precedence() {
    assert_eq!(
        code_of("(1 + 2) * 3;"),
        vec![
            op(OpCode::OpConstant),
            0,
            op(OpCode::OpConstant),
            1,
            op(OpCode::OpAdd),
            op(OpCode::OpConstant),
            2,
            op(OpCode::OpMultiply),
            op(OpCode::OpPop),
            op(OpCode::OpReturn),
        ]
    );
}

#[test]
fn literals_have_their_own_instructions() {
    assert_eq!(
        code_of("nil; true; false;"),
        vec![
            op(OpCode::OpNil),
            op(OpCode::OpPop),
            op(OpCode::OpTrue),
            op(OpCode::OpPop),
            op(OpCode::OpFalse),
            op(OpCode::OpPop),
            op(OpCode::OpReturn),
        ]
    );
}

#[test]
fn unary_operators_follow_their_operand() {
    assert_eq!(
        code_of("-!true;"),
        vec![
            op(OpCode::OpTrue),
            op(OpCode::OpNot),
            op(OpCode::OpNegate),
            op(OpCode::OpPop),
            op(OpCode::OpReturn),
        ]
    );
}

#[test]
fn comparisons_are_rewritten_to_three_instructions() {
    let pairs = [
        ("!=", vec![op(OpCode::OpEqual), op(OpCode::OpNot)]),
        ("==", vec![op(OpCode::OpEqual)]),
        (">", vec![op(OpCode::OpGreater)]),
        (">=", vec![op(OpCode::OpLess), op(OpCode::OpNot)]),
        ("<", vec![op(OpCode::OpLess)]),
        ("<=", vec![op(OpCode::OpGreater), op(OpCode::OpNot)]),
        ("+", vec![op(OpCode::OpAdd)]),
        ("-", vec![op(OpCode::OpSubtract)]),
        ("*", vec![op(OpCode::OpMultiply)]),
        ("/", vec![op(OpCode::OpDivide)]),
    ];
    for (operator, instructions) in pairs {
        let mut expected = vec![op(OpCode::OpNil), op(OpCode::OpTrue)];
        expected.extend(instructions);
        expected.push(op(OpCode::OpPop));
        expected.push(op(OpCode::OpReturn));
        assert_eq!(code_of(&format!("nil {} true;", operator)), expected, "{}", operator);
    }
}

#[test]
fn a_string_constant_is_the_text_between_the_quotes() {
    let (result, chunk, _) = compile("print \"a\\n b\"; print \"\";");
    assert_eq!(result, Ok(()));
    assert_eq!(chunk.value_array.values, vec![Value::string("a\\n b"), Value::string("")]);
}

#[test]
fn a_global_is_addressed_by_an_interned_name() {
    let (result, chunk, _) = compile("var a = 1; print a; a = 2; var b; print b; print a;");
    assert_eq!(result, Ok(()));
    assert_eq!(
        chunk.code,
        vec![
            op(OpCode::OpConstant),
            1,
            op(OpCode::OpDefineGlobal),
            0,
            op(OpCode::OpGetGlobal),
            0,
            op(OpCode::OpPrint),
            op(OpCode::OpConstant),
            2,
            op(OpCode::OpSetGlobal),
            0,
            op(OpCode::OpPop),
            op(OpCode::OpNil),
            op(OpCode::OpDefineGlobal),
            3,
            op(OpCode::OpGetGlobal),
            3,
            op(OpCode::OpPrint),
            op(OpCode::OpGetGlobal),
            0,
            op(OpCode::OpPrint),
            op(OpCode::OpReturn),
        ]
    );
    assert_eq!(
        chunk.value_array.values,
        vec![
            Value::string("a"),
            Value::Number(1.0f64.to_bits()),
            Value::Number(2.0f64.to_bits()),
            Value::string("b"),
        ]
    );
}

#[test]
fn a_local_is_addressed_by_its_slot_and_popped_at_the_end_of_its_scope() {
    assert_eq!(
        code_of("{ var a = nil; var b = true; print a; b = a; { var c; print c; } }"),
        vec![
            op(OpCode::OpNil),
            op(OpCode::OpTrue),
            op(OpCode::OpGetLocal),
            0,
            op(OpCode::OpPrint),
            op(OpCode::OpGetLocal),
            0,
            op(OpCode::OpSetLocal),
            1,
            op(OpCode::OpPop),
            op(OpCode::OpNil),
            op(OpCode::OpGetLocal),
            2,
            op(OpCode::OpPrint),
            op(OpCode::OpPop),
            op(OpCode::OpPop),
            op(OpCode::OpPop),
            op(OpCode::OpReturn),
        ]
    );
}

#[test]
fn an_inner_scope_may_declare_the_name_of_an_outer_one() {
    assert_eq!(
        code_of("{ var a = nil; { var a = true; print a; } print a; }"),
        vec![
            op(OpCode::OpNil),
            op(OpCode::OpTrue),
            op(OpCode::OpGetLocal),
            1,
            op(OpCode::OpPrint),
            op(OpCode::OpPop),
            op(OpCode::OpGetLocal),
            0,
            op(OpCode::OpPrint),
            op(OpCode::OpPop),
            op(OpCode::OpReturn),
        ]
    );
}

#[test]
fn a_global_may_be_declared_twice() {
    let (result, _, diagnostics) = compile("var a = nil; var a = true;");
    assert_eq!(result, Ok(()));
    assert!(diagnostics.is_empty());
}

#[test]
fn every_byte_carries_the_line_of_the_lookahead() {
    let (result, chunk, _) = compile("print\nnil\n;\nprint true;");
    assert_eq!(result, Ok(()));
    assert_eq!(
        chunk.code,
        vec![
            op(OpCode::OpNil),
            op(OpCode::OpPrint),
            op(OpCode::OpTrue),
            op(OpCode::OpPrint),
            op(OpCode::OpReturn),
        ]
    );
    assert_eq!(chunk.lines, vec![3, 4, 4, 4, 4]);
}

#[test]
fn compiling_appends_to_the_chunk_it_is_given() {
    let mut chunk = Chunk::new();
    chunk.write(op(OpCode::OpNil), 9);
    let _ = chunk.add_constant(Value::Nil);
    let mut parser = Parser::new("print \"x\";".to_string());
    assert_eq!(parser.compile(&mut chunk, &Vec::new()), Ok(()));
    assert_eq!(
        chunk.code,
        vec![op(OpCode::OpNil), op(OpCode::OpConstant), 1, op(OpCode::OpPrint), op(OpCode::OpReturn)]
    );
    assert_eq!(chunk.lines, vec![9, 1, 1, 1, 1]);
    assert_eq!(chunk.value_array.values, vec![Value::Nil, Value::string("x")]);
}

#[test]
fn a_missing_expression_is_reported() {
    assert_eq!(messages_of("print ;"), vec!["Expect expression.".to_string()]);
    assert_eq!(messages_of("1 + ;"), vec!["Expect expression.".to_string()]);
    assert_eq!(messages_of(")"), vec!["Expect expression.".to_string()]);
}

#[test]
fn an_assignment_needs_a_target() {
    assert_eq!(messages_of("1 = 2;"), vec!["Invalid assignment target.".to_string()]);
    assert_eq!(messages_of("var a; var b; a + b = 3;"), vec!["Invalid assignment target.".to_string()]);
}

#[test]
fn missing_punctuation_is_reported() {
    assert_eq!(messages_of("print 1"), vec!["Expect ';' after value".to_string()]);
    assert_eq!(messages_of("1"), vec!["Expect ';' after expression".to_string()]);
    assert_eq!(messages_of("var a = 1"), vec!["Expect ';' after variable declaration.".to_string()]);
    assert_eq!(messages_of("var 1;"), vec!["Expect variable name.".to_string()]);
    assert_eq!(messages_of("(1;"), vec!["Expect ')' after expression.".to_string()]);
    assert_eq!(messages_of("{ print 1;"), vec!["Expect '}' after a block.".to_string()]);
}

#[test]
fn a_duplicate_local_is_reported_with_its_place() {
    let (result, _, diagnostics) = compile("{\n var a = 1;\n var a = 2;\n}");
    assert_eq!(result, Err(()));
    assert_eq!(diagnostics.len(), 1);
    assert_eq!(diagnostics[0].message, "Already a variable with this name in this scope.");
    assert_eq!(diagnostics[0].line, 3);
    match &diagnostics[0].place {
        Place::Lexeme(text) => assert_eq!(text, "a"),
        other => panic!("unexpected place {:?}", other),
    }
    assert_eq!(
        diagnostics[0].render(),
        "[line 3] Error at 'a' Already a variable with this name in this scope."
    );
}

#[test]
fn an_error_at_the_end_of_input_says_so() {
    let (_, _, diagnostics) = compile("print 1 +");
    assert_eq!(diagnostics.len(), 1);
    assert_eq!(diagnostics[0].render(), "[line 1] Error at end Expect expression.");
}

#[test]
fn an_error_of_the_scanner_is_reported_on_its_line() {
    let (result, _, diagnostics) = compile("print 1;\nprint @ 2;");
    assert_eq!(result, Err(()));
    assert_eq!(diagnostics.len(), 1);
    assert_eq!(diagnostics[0].render(), "[line 2] Error Unexpected character: @");
}

#[test]
fn one_error_is_reported_for_each_malformed_statement() {
    assert_eq!(
        messages_of("print 1 + ; print ); var a = 1; a + = 2; print a;"),
        vec![
            "Expect expression.".to_string(),
            "Expect expression.".to_string(),
            "Expect expression.".to_string(),
        ]
    );
    assert_eq!(messages_of("print (((;"), vec!["Expect expression.".to_string()]);
}

#[test]
fn errors_do_not_stop_the_compiler() {
    let (result, chunk, diagnostics) = compile("print ; print nil;");
    assert_eq!(result, Err(()));
    assert_eq!(diagnostics.len(), 1);
    assert_eq!(
        chunk.code,
        vec![op(OpCode::OpPrint), op(OpCode::OpNil), op(OpCode::OpPrint), op(OpCode::OpReturn)]
    );
}

#[test]
fn a_number_literal_needs_a_value_in_the_table() {
    let mut parser = Parser::new("print 1; print 2;".to_string());
    let mut chunk = Chunk::new();
    let table = vec![NumberLiteral { lexeme: "1".to_string(), bits: 1.0f64.to_bits() }];
    assert_eq!(parser.compile(&mut chunk, &table), Err(()));
    let diagnostics = parser.into_diagnostics();
    assert_eq!(diagnostics.len(), 1);
    assert_eq!(diagnostics[0].message, "Number literal without a value.");
    assert_eq!(chunk.value_array.values, vec![Value::Number(1.0f64.to_bits())]);
}

#[test]
fn the_last_entry_of_the_table_counts() {
    let mut parser = Parser::new("print 1;".to_string());
    let mut chunk = Chunk::new();
    let table = vec![
        NumberLiteral { lexeme: "1".to_string(), bits: 7 },
        NumberLiteral { lexeme: "2".to_string(), bits: 8 },
        NumberLiteral { lexeme: "1".to_string(), bits: 9 },
    ];
    assert_eq!(parser.compile(&mut chunk, &table), Ok(()));
    assert_eq!(chunk.value_array.values, vec![Value::Number(9)]);
}

#[test]
fn a_full_constant_pool_takes_no_more() {
    let mut chunk = Chunk::new();
    for _ in 0..256 {
        let _ = chunk.add_constant(Value::Nil);
    }
    let mut parser = Parser::new("print \"one more\";".to_string());
    assert_eq!(parser.compile(&mut chunk, &Vec::new()), Err(()));
    assert_eq!(chunk.value_array.values.len(), 256);
    let diagnostics = parser.into_diagnostics();
    assert_eq!(diagnostics.len(), 1);
    assert_eq!(diagnostics[0].message, "Too many constants in one chunk.");
}

#[test]
fn interned_names_do_not_fill_the_pool() {
    let mut source = String::from("var a = nil;\n");
    for _ in 0..400 {
        source.push_str("print a;\n");
    }
    let (result, chunk, _) = compile(&source);
    assert_eq!(result, Ok(()));
    assert_eq!(chunk.value_array.values, vec![Value::string("a")]);
}

#[test]
fn a_scope_holds_256_locals_and_no_more() {
    let mut source = String::from("{\n");
    for i in 0..256 {
        source.push_str(&format!("var v{};\n", i));
    }
    source.push_str("print v255;\n}");
    let code = code_of(&source);
    assert_eq!(code[256], op(OpCode::OpGetLocal));
    assert_eq!(code[257], 255);

    let mut source = String::from("{\n");
    for i in 0..257 {
        source.push_str(&format!("var v{};\n", i));
    }
    source.push_str("}");
    assert_eq!(messages_of(&source), vec!["Too many local variables defined.".to_string()]);
}

#[test]
fn blocks_nest_254_deep_and_no_deeper() {
    let source = format!("{}print nil;{}", "{".repeat(254), "}".repeat(254));
    assert_eq!(code_of(&source), vec![op(OpCode::OpNil), op(OpCode::OpPrint), op(OpCode::OpReturn)]);
    let source = format!("{}print nil;{}", "{".repeat(255), "}".repeat(255));
    assert_eq!(messages_of(&source), vec!["Too many nested blocks.".to_string()]);
}

#[test]
fn the_levels_of_precedence_are_ordered() {
    let levels = [
        Precedence::Lowest,
        Precedence::Assignment,
        Precedence::Or,
        Precedence::And,
        Precedence::Equality,
        Precedence::Comparison,
        Precedence::Term,
        Precedence::Factor,
        Precedence::Unary,
        Precedence::Call,
        Precedence::Primary,
    ];
    for (position, level) in levels.iter().enumerate() {
        assert_eq!(level.rank() as usize, position);
        let next = if position < 10 { levels[position + 1] } else { Precedence::Primary };
        assert_eq!(level.greater(), next);
        for (other_position, other) in levels.iter().enumerate() {
            assert_eq!(level.at_most(*other), position <= other_position);
        }
    }
}

#[test]
fn the_rule_table() {
    let minus = ParseRule::get_rule(&TokenType::Minus);
    assert_eq!(minus.prefix, Some(ParseFn::Unary));
    assert_eq!(minus.infix, Some(ParseFn::Binary));
    assert_eq!(minus.precedence, Precedence::Term);
    let star = ParseRule::get_rule(&TokenType::Star);
    assert_eq!(star.prefix, None);
    assert_eq!(star.precedence, Precedence::Factor);
    for kind in [TokenType::EqualEqual, TokenType::BangEqual] {
        let rule = ParseRule::get_rule(&kind);
        assert_eq!(rule.prefix, None);
        assert_eq!(rule.infix, Some(ParseFn::Binary));
        assert_eq!(rule.precedence, Precedence::Equality);
    }
    for kind in [
        TokenType::Greater,
        TokenType::GreaterEqual,
        TokenType::Less,
        TokenType::LessEqual,
    ] {
        let rule = ParseRule::get_rule(&kind);
        assert_eq!(rule.infix, Some(ParseFn::Binary));
        assert_eq!(rule.precedence, Precedence::Comparison);
    }
    let paren = ParseRule::get_rule(&TokenType::LeftParen);
    assert_eq!(paren.prefix, Some(ParseFn::Grouping));
    assert_eq!(paren.infix, None);
    assert_eq!(paren.precedence, Precedence::Lowest);
    for kind in [TokenType::Eof, TokenType::Semicolon, TokenType::Equal, TokenType::Var] {
        assert_eq!(
            ParseRule::get_rule(&kind),
            ParseRule { prefix: None, infix: None, precedence: Precedence::Lowest }
        );
    }
    assert_eq!(ParseRule::get_rule(&TokenType::Identifier).prefix, Some(ParseFn::Variable));
    assert_eq!(ParseRule::get_rule(&TokenType::String).prefix, Some(ParseFn::String));
    assert_eq!(ParseRule::get_rule(&TokenType::Number).prefix, Some(ParseFn::Number));
    assert_eq!(ParseRule::get_rule(&TokenType::Nil).prefix, Some(ParseFn::Literal));
}

#[test]
fn the_scope_tracker_fills_up_at_256_locals() {
    let mut compiler = Compiler::new();
    for i in 0..256 {
        assert!(compiler.add_local(Local::new(format!("v{}", i), 0)));
    }
    assert!(!compiler.add_local(Local::new("one more".to_string(), 0)));
    assert_eq!(compiler.local_count(), 256);
    assert_eq!(compiler.depth(), 0);
}
