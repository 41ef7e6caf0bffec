use lox_rust::scanner::{is_decimal_digit, keyword_of, number_literals, Scanner};
use lox_rust::token::{Token, TokenType};

/// Scans `source` to its end and returns the tokens and the error messages,
/// in the order in which they were found.
fn scan_all(source: &str) -> (Vec<Token>, Vec<(String, u32)>) {
    let mut scanner = Scanner::new(source.to_string());
    let mut tokens = Vec::new();
    let mut errors = Vec::new();
    loop {
        match scanner.scan_token() {
            Ok(token) => {
                let end = token.token_type == TokenType::Eof;
                tokens.push(token);
                if end {
                    return (tokens, errors);
                }
            }
            Err(error) => errors.push((error.message, error.line)),
        }
    }
}

fn kinds(source: &str) -> Vec<TokenType> {
    scan_all(source).0.iter().map(|t| t.token_type).collect()
}

#[test]
fn an_empty_source_is_one_end_of_input() {
    let (tokens, errors) = scan_all("");
    assert!(errors.is_empty());
    assert_eq!(tokens.len(), 1);
    assert_eq!(tokens[0].token_type, TokenType::Eof);
    assert_eq!(tokens[0].lexeme, "");
    assert_eq!(tokens[0].line, 1);
}

#[test]
fn the_end_of_input_repeats() {
    let mut scanner = Scanner::new("+".to_string());
    assert!(!scanner.is_at_end());
    assert_eq!(scanner.scan_token().ok().unwrap().token_type, TokenType::Plus);
    assert!(scanner.is_at_end());
    assert_eq!(scanner.scan_token().ok().unwrap().token_type, TokenType::Eof);
    assert_eq!(scanner.scan_token().ok().unwrap().token_type, TokenType::Eof);
}

#[test]
fn punctuation_and_operators() {
    assert_eq!(
        kinds("(){},.-+;*/ ! != = == < <= > >="),
        vec![
            TokenType::LeftParen,
            TokenType::RightParen,
            TokenType::LeftBrace,
            TokenType::RightBrace,
            TokenType::Comma,
            TokenType::Dot,
            TokenType::Minus,
            TokenType::Plus,
            TokenType::Semicolon,
            TokenType::Star,
            TokenType::Slash,
            TokenType::Bang,
            TokenType::BangEqual,
            TokenType::Equal,
            TokenType::EqualEqual,
            TokenType::Less,
            TokenType::LessEqual,
            TokenType::Greater,
            TokenType::GreaterEqual,
            TokenType::Eof,
        ]
    );
}

#[test]
fn two_character_operators_take_both_characters() {
    let (tokens, _) = scan_all("!===");
    assert_eq!(tokens[0].lexeme, "!=");
    assert_eq!(tokens[1].lexeme, "==");
    assert_eq!(tokens[2].token_type, TokenType::Eof);
}

#[test]
fn every_keyword_is_recognised() {
    let words = [
        ("and", TokenType::And),
        ("class", TokenType::Class),
        ("else", TokenType::Else),
        ("false", TokenType::False),
        ("for", TokenType::For),
        ("fun", TokenType::Fun),
        ("if", TokenType::If),
        ("nil", TokenType::Nil),
        ("or", TokenType::Or),
        ("print", TokenType::Print),
        ("return", TokenType::Return),
        ("super", TokenType::Super),
        ("this", TokenType::This),
        ("true", TokenType::True),
        ("var", TokenType::Var),
        ("while", TokenType::While),
    ];
    for (word, kind) in words {
        assert_eq!(keyword_of(word), Some(kind));
        assert_eq!(kinds(word), vec![kind, TokenType::Eof]);
    }
    assert_eq!(keyword_of("variable"), None);
    assert_eq!(keyword_of("va"), None);
    assert_eq!(keyword_of(""), None);
}

#[test]
fn identifiers_go_on_over_letters_digits_and_underscores() {
    let (tokens, errors) = scan_all("abc_1 x2y printer");
    assert!(errors.is_empty());
    assert_eq!(tokens[0].token_type, TokenType::Identifier);
    assert_eq!(tokens[0].lexeme, "abc_1");
    assert_eq!(tokens[1].lexeme, "x2y");
    assert_eq!(tokens[2].token_type, TokenType::Identifier);
    assert_eq!(tokens[2].lexeme, "printer");
}

#[test]
fn letters_beyond_ascii_make_identifiers() {
    let (tokens, errors) = scan_all("été = 1;");
    assert!(errors.is_empty());
    assert_eq!(tokens[0].token_type, TokenType::Identifier);
    assert_eq!(tokens[0].lexeme, "été");
    assert_eq!(tokens[1].token_type, TokenType::Equal);
}

#[test]
fn an_identifier_cannot_start_with_an_underscore() {
    let (tokens, errors) = scan_all("_a");
    assert_eq!(errors, vec![("Unexpected character: _".to_string(), 1)]);
    assert_eq!(tokens[0].token_type, TokenType::Identifier);
    assert_eq!(tokens[0].lexeme, "a");
}

#[test]
fn numbers_with_and_without_fraction() {
    let (tokens, errors) = scan_all("12 3.25 7. .5");
    assert!(errors.is_empty());
    let found: Vec<(TokenType, &str)> =
        tokens.iter().map(|t| (t.token_type, t.lexeme.as_str())).collect();
    assert_eq!(
        found,
        vec![
            (TokenType::Number, "12"),
            (TokenType::Number, "3.25"),
            (TokenType::Number, "7"),
            (TokenType::Dot, "."),
            (TokenType::Dot, "."),
            (TokenType::Number, "5"),
            (TokenType::Eof, ""),
        ]
    );
}

#[test]
fn digits_are_the_ten_ascii_digits() {
    for c in '0'..='9' {
        assert!(is_decimal_digit(c));
    }
    assert!(!is_decimal_digit('a'));
    assert!(!is_decimal_digit('/'));
    assert!(!is_decimal_digit(':'));
    assert!(!is_decimal_digit('٣'));
}

#[test]
fn a_string_keeps_its_quotes_and_counts_its_lines() {
    let (tokens, errors) = scan_all("\"foo \nbar\" x");
    assert!(errors.is_empty());
    assert_eq!(tokens[0].token_type, TokenType::String);
    assert_eq!(tokens[0].lexeme, "\"foo \nbar\"");
    assert_eq!(tokens[0].line, 2);
    assert_eq!(tokens[1].token_type, TokenType::Identifier);
    assert_eq!(tokens[1].line, 2);
}

#[test]
fn a_string_without_closing_quote_is_an_error() {
    let (tokens, errors) = scan_all("1 \"abc\ndef");
    assert_eq!(errors, vec![("Unterminated String".to_string(), 2)]);
    assert_eq!(tokens[0].token_type, TokenType::Number);
    assert_eq!(tokens[1].token_type, TokenType::Eof);
}

#[test]
fn line_comments_run_to_the_end_of_the_line() {
    let (tokens, errors) = scan_all("1 // two three\n4 // five");
    assert!(errors.is_empty());
    assert_eq!(tokens.len(), 3);
    assert_eq!(tokens[0].lexeme, "1");
    assert_eq!(tokens[1].lexeme, "4");
    assert_eq!(tokens[1].line, 2);
}

#[test]
fn block_comments_nest() {
    let (tokens, errors) = scan_all("1 /* a /* b */ c */ 2");
    assert!(errors.is_empty());
    let lexemes: Vec<&str> = tokens.iter().map(|t| t.lexeme.as_str()).collect();
    assert_eq!(lexemes, vec!["1", "2", ""]);
}

#[test]
fn a_block_comment_without_end_is_an_error() {
    let (tokens, errors) = scan_all("1 /* a /* b */ c");
    assert_eq!(errors, vec![("Unterminated Multiline Comment".to_string(), 1)]);
    assert_eq!(tokens.len(), 2);
    assert_eq!(tokens[1].token_type, TokenType::Eof);
}

#[test]
fn an_unexpected_character_is_an_error_and_scanning_goes_on() {
    let (tokens, errors) = scan_all("1 @ 2\n# 3");
    assert_eq!(
        errors,
        vec![
            ("Unexpected character: @".to_string(), 1),
            ("Unexpected character: #".to_string(), 2),
        ]
    );
    let lexemes: Vec<&str> = tokens.iter().map(|t| t.lexeme.as_str()).collect();
    assert_eq!(lexemes, vec!["1", "2", "3", ""]);
}

#[test]
fn lines_are_counted_from_one() {
    let (tokens, _) = scan_all("a\nb\r\n\nc");
    let lines: Vec<u32> = tokens.iter().map(|t| t.line).collect();
    assert_eq!(lines, vec![1, 2, 4, 4]);
}

#[test]
fn reset_starts_over_on_a_new_source() {
    let mut scanner = Scanner::new("a\nb".to_string());
    let _ = scanner.scan_token();
    let _ = scanner.scan_token();
    scanner.reset_with_source("c".to_string());
    let token = scanner.scan_token().ok().unwrap();
    assert_eq!(token.lexeme, "c");
    assert_eq!(token.line, 1);
}

#[test]
fn number_literals_are_collected_in_order() {
    let found = number_literals("var a = 1.5; // 7\nprint a + 20 * 1.5; \"3\"".to_string());
    assert_eq!(found, vec!["1.5".to_string(), "20".to_string(), "1.5".to_string()]);
    assert!(number_literals("print nil;".to_string()).is_empty());
}

#[test]
fn a_token_is_described_with_its_category_text_and_line() {
    let token = Token::new(TokenType::Identifier, "abc".to_string(), 12);
    assert_eq!(token.describe(), "Token(type: Identifier lexeme: abc line: 12)");
    assert_eq!(TokenType::BangEqual.as_str(), "BangEqual");
    let blank = Token::default();
    assert_eq!(blank.token_type, TokenType::Eof);
    assert_eq!(blank.lexeme, "");
    assert_eq!(blank.line, 0);
}
