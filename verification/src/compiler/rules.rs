//! Operator precedence and the table that drives the parser.

use vstd::prelude::*;
use crate::token::TokenType;

verus! {

/// The precedence levels, from the loosest binding to the tightest.
#[derive(Debug, Clone, Copy, PartialEq, Eq, Structural)]
pub enum Precedence {
    Lowest,
    Assignment,
    Or,
    And,
    Equality,
    Comparison,
    Term,
    Factor,
    Unary,
    Call,
    Primary,
}

impl Precedence {
    /// The position of the level in the order: 0 for `Lowest`, 10 for `Primary`.
    pub open spec fn level(self) -> nat {
        match self {
            Precedence::Lowest => 0,
            Precedence::Assignment => 1,
            Precedence::Or => 2,
            Precedence::And => 3,
            Precedence::Equality => 4,
            Precedence::Comparison => 5,
            Precedence::Term => 6,
            Precedence::Factor => 7,
            Precedence::Unary => 8,
            Precedence::Call => 9,
            Precedence::Primary => 10,
        }
    }

    /// The next tighter level; `Primary`, the tightest, for `Primary`.
    pub open spec fn next(self) -> Precedence {
        match self {
            Precedence::Lowest => Precedence::Assignment,
            Precedence::Assignment => Precedence::Or,
            Precedence::Or => Precedence::And,
            Precedence::And => Precedence::Equality,
            Precedence::Equality => Precedence::Comparison,
            Precedence::Comparison => Precedence::Term,
            Precedence::Term => Precedence::Factor,
            Precedence::Factor => Precedence::Unary,
            Precedence::Unary => Precedence::Call,
            Precedence::Call => Precedence::Primary,
            Precedence::Primary => Precedence::Primary,
        }
    }

    /// Computes [`Precedence::level`].
    pub fn rank(self) -> (res: u8)
        ensures
            res == self.level(),
            res <= 10,
    {
        match self {
            Precedence::Lowest => 0,
            Precedence::Assignment => 1,
            Precedence::Or => 2,
            Precedence::And => 3,
            Precedence::Equality => 4,
            Precedence::Comparison => 5,
            Precedence::Term => 6,
            Precedence::Factor => 7,
            Precedence::Unary => 8,
            Precedence::Call => 9,
            Precedence::Primary => 10,
        }
    }

    /// The next tighter level: one level up, except from `Primary`, which
    /// stays.
    pub fn greater(self) -> (res: Precedence)
        ensures
            res == self.next(),
            res.level() == if self.level() < 10 {
                self.level() + 1
            } else {
                10
            },
    {
        match self {
            Precedence::Lowest => Precedence::Assignment,
            Precedence::Assignment => Precedence::Or,
            Precedence::Or => Precedence::And,
            Precedence::And => Precedence::Equality,
            Precedence::Equality => Precedence::Comparison,
            Precedence::Comparison => Precedence::Term,
            Precedence::Term => Precedence::Factor,
            Precedence::Factor => Precedence::Unary,
            Precedence::Unary => Precedence::Call,
            Precedence::Call => Precedence::Primary,
            Precedence::Primary => Precedence::Primary,
        }
    }

    /// Whether this level binds no tighter than `other`.
    pub fn at_most(self, other: Precedence) -> (res: bool)
        ensures
            res == (self.level() <= other.level()),
    {
        self.rank() <= other.rank()
    }
}

/// The levels are totally ordered by [`Precedence::level`]: distinct levels
/// have distinct positions.
pub proof fn lemma_levels_distinct(a: Precedence, b: Precedence)
    ensures
        a.level() == b.level() <==> a == b,
        a.level() <= 10,
{
}

/// The handlers that the parser dispatches to.
#[derive(Debug, Clone, Copy, PartialEq, Eq, Structural)]
pub enum ParseFn {
    Grouping,
    Unary,
    Binary,
    Variable,
    String,
    Number,
    Literal,
}

/// How the parser treats a token: the handler to call where the token starts
/// an expression, the handler to call where it follows an operand, and how
/// tightly it binds as an operator.
#[derive(Debug, Clone, Copy, PartialEq, Eq, Structural)]
pub struct ParseRule {
    pub prefix: Option<ParseFn>,
    pub infix: Option<ParseFn>,
    pub precedence: Precedence,
}

/// The handler for a token that starts an expression, if it can start one.
pub open spec fn prefix_of(token_type: TokenType) -> Option<ParseFn> {
    match token_type {
        TokenType::LeftParen => Some(ParseFn::Grouping),
        TokenType::Minus | TokenType::Bang => Some(ParseFn::Unary),
        TokenType::Identifier => Some(ParseFn::Variable),
        TokenType::String => Some(ParseFn::String),
        TokenType::Number => Some(ParseFn::Number),
        TokenType::False | TokenType::Nil | TokenType::True => Some(ParseFn::Literal),
        _ => None,
    }
}

/// Whether the token is a binary operator.
pub open spec fn is_binary_operator(token_type: TokenType) -> bool {
    match token_type {
        TokenType::Minus
        | TokenType::Plus
        | TokenType::Slash
        | TokenType::Star
        | TokenType::BangEqual
        | TokenType::EqualEqual
        | TokenType::Greater
        | TokenType::GreaterEqual
        | TokenType::Less
        | TokenType::LessEqual => true,
        _ => false,
    }
}

/// How tightly a token binds as an operator: `Lowest` for every token that is
/// no binary operator.
pub open spec fn precedence_of(token_type: TokenType) -> Precedence {
    match token_type {
        TokenType::Minus | TokenType::Plus => Precedence::Term,
        TokenType::Slash | TokenType::Star => Precedence::Factor,
        TokenType::BangEqual | TokenType::EqualEqual => Precedence::Equality,
        TokenType::Greater
        | TokenType::GreaterEqual
        | TokenType::Less
        | TokenType::LessEqual => Precedence::Comparison,
        _ => Precedence::Lowest,
    }
}

/// The rule for a token.
pub open spec fn rule_of(token_type: TokenType) -> ParseRule {
    ParseRule {
        prefix: prefix_of(token_type),
        infix: if is_binary_operator(token_type) {
            Some(ParseFn::Binary)
        } else {
            None
        },
        precedence: precedence_of(token_type),
    }
}

impl ParseRule {
    /// Looks the rule for a token up in the table.
    pub fn get_rule(token_type: &TokenType) -> (res: ParseRule)
        ensures
            res == rule_of(*token_type),
            res.infix is Some <==> res.precedence != Precedence::Lowest,
    {
        match token_type {
            TokenType::LeftParen => ParseRule {
                prefix: Some(ParseFn::Grouping),
                infix: None,
                precedence: Precedence::Lowest,
            },
            TokenType::RightParen => ParseRule {
                prefix: None,
                infix: None,
                precedence: Precedence::Lowest,
            },
            TokenType::LeftBrace => ParseRule {
                prefix: None,
                infix: None,
                precedence: Precedence::Lowest,
            },
            TokenType::RightBrace => ParseRule {
                prefix: None,
                infix: None,
                precedence: Precedence::Lowest,
            },
            TokenType::Comma => ParseRule {
                prefix: None,
                infix: None,
                precedence: Precedence::Lowest,
            },
            TokenType::Dot => ParseRule { prefix: None, infix: None, precedence: Precedence::Lowest },
            TokenType::Minus => ParseRule {
                prefix: Some(ParseFn::Unary),
                infix: Some(ParseFn::Binary),
                precedence: Precedence::Term,
            },
            TokenType::Plus => ParseRule {
                prefix: None,
                infix: Some(ParseFn::Binary),
                precedence: Precedence::Term,
            },
            TokenType::Semicolon => ParseRule {
                prefix: None,
                infix: None,
                precedence: Precedence::Lowest,
            },
            TokenType::Slash => ParseRule {
                prefix: None,
                infix: Some(ParseFn::Binary),
                precedence: Precedence::Factor,
            },
            TokenType::Star => ParseRule {
                prefix: None,
                infix: Some(ParseFn::Binary),
                precedence: Precedence::Factor,
            },
            TokenType::Bang => ParseRule {
                prefix: Some(ParseFn::Unary),
                infix: None,
                precedence: Precedence::Lowest,
            },
            TokenType::BangEqual => ParseRule {
                prefix: None,
                infix: Some(ParseFn::Binary),
                precedence: Precedence::Equality,
            },
            TokenType::Equal => ParseRule {
                prefix: None,
                infix: None,
                precedence: Precedence::Lowest,
            },
            TokenType::EqualEqual => ParseRule {
                prefix: None,
                infix: Some(ParseFn::Binary),
                precedence: Precedence::Equality,
            },
            TokenType::Greater => ParseRule {
                prefix: None,
                infix: Some(ParseFn::Binary),
                precedence: Precedence::Comparison,
            },
            TokenType::GreaterEqual => ParseRule {
                prefix: None,
                infix: Some(ParseFn::Binary),
                precedence: Precedence::Comparison,
            },
            TokenType::Less => ParseRule {
                prefix: None,
                infix: Some(ParseFn::Binary),
                precedence: Precedence::Comparison,
            },
            TokenType::LessEqual => ParseRule {
                prefix: None,
                infix: Some(ParseFn::Binary),
                precedence: Precedence::Comparison,
            },
            TokenType::Identifier => ParseRule {
                prefix: Some(ParseFn::Variable),
                infix: None,
                precedence: Precedence::Lowest,
            },
            TokenType::String => ParseRule {
                prefix: Some(ParseFn::String),
                infix: None,
                precedence: Precedence::Lowest,
            },
            TokenType::Number => ParseRule {
                prefix: Some(ParseFn::Number),
                infix: None,
                precedence: Precedence::Lowest,
            },
            TokenType::And => ParseRule { prefix: None, infix: None, precedence: Precedence::Lowest },
            TokenType::Class => ParseRule {
                prefix: None,
                infix: None,
                precedence: Precedence::Lowest,
            },
            TokenType::Else => ParseRule {
                prefix: None,
                infix: None,
                precedence: Precedence::Lowest,
            },
            TokenType::False => ParseRule {
                prefix: Some(ParseFn::Literal),
                infix: None,
                precedence: Precedence::Lowest,
            },
            TokenType::Fun => ParseRule { prefix: None, infix: None, precedence: Precedence::Lowest },
            TokenType::For => ParseRule { prefix: None, infix: None, precedence: Precedence::Lowest },
            TokenType::If => ParseRule { prefix: None, infix: None, precedence: Precedence::Lowest },
            TokenType::Nil => ParseRule {
                prefix: Some(ParseFn::Literal),
                infix: None,
                precedence: Precedence::Lowest,
            },
            TokenType::Or => ParseRule { prefix: None, infix: None, precedence: Precedence::Lowest },
            TokenType::Print => ParseRule {
                prefix: None,
                infix: None,
                precedence: Precedence::Lowest,
            },
            TokenType::Return => ParseRule {
                prefix: None,
                infix: None,
                precedence: Precedence::Lowest,
            },
            TokenType::Super => ParseRule {
                prefix: None,
                infix: None,
                precedence: Precedence::Lowest,
            },
            TokenType::This => ParseRule {
                prefix: None,
                infix: None,
                precedence: Precedence::Lowest,
            },
            TokenType::True => ParseRule {
                prefix: Some(ParseFn::Literal),
                infix: None,
                precedence: Precedence::Lowest,
            },
            TokenType::Var => ParseRule { prefix: None, infix: None, precedence: Precedence::Lowest },
            TokenType::While => ParseRule {
                prefix: None,
                infix: None,
                precedence: Precedence::Lowest,
            },
            TokenType::Eof => ParseRule { prefix: None, infix: None, precedence: Precedence::Lowest },
        }
    }
}

} // verus!
