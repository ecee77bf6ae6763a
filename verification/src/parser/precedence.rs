//! Binding powers of the operators.

use vstd::prelude::*;
use crate::token::TokenType;

verus! {

/// The binding power of an operator, from the weakest to the strongest.
#[derive(Debug, Clone, Copy, PartialEq, Eq, Structural, PartialOrd, Ord)]
pub enum Precedence {
    LOWEST,
    EQUALS,
    LESSGREATER,
    SUM,
    PRODUCT,
    PREFIX,
    CALL,
}

impl Precedence {
    /// The place of a precedence in the order of binding powers.
    pub open spec fn spec_rank(self) -> nat {
        match self {
            Precedence::LOWEST => 0,
            Precedence::EQUALS => 1,
            Precedence::LESSGREATER => 2,
            Precedence::SUM => 3,
            Precedence::PRODUCT => 4,
            Precedence::PREFIX => 5,
            Precedence::CALL => 6,
        }
    }

    /// The binding power of a token that stands between two operands, and
    /// `LOWEST` for every other token.
    pub open spec fn spec_from_token(token: TokenType) -> Precedence {
        match token {
            TokenType::EQ => Precedence::EQUALS,
            TokenType::NOTEQ => Precedence::EQUALS,
            TokenType::GT => Precedence::LESSGREATER,
            TokenType::LT => Precedence::LESSGREATER,
            TokenType::PLUS => Precedence::SUM,
            TokenType::MINUS => Precedence::SUM,
            TokenType::SLASH => Precedence::PRODUCT,
            TokenType::ASTERISK => Precedence::PRODUCT,
            TokenType::LPAREN => Precedence::CALL,
            _ => Precedence::LOWEST,
        }
    }

    pub fn rank(&self) -> (r: u8)
        ensures
            r == self.spec_rank(),
    {
        match self {
            Precedence::LOWEST => 0,
            Precedence::EQUALS => 1,
            Precedence::LESSGREATER => 2,
            Precedence::SUM => 3,
            Precedence::PRODUCT => 4,
            Precedence::PREFIX => 5,
            Precedence::CALL => 6,
        }
    }

    pub fn from_token(token: &TokenType) -> (p: Precedence)
        ensures
            p == Precedence::spec_from_token(*token),
    {
        match token {
            TokenType::EQ => Precedence::EQUALS,
            TokenType::NOTEQ => Precedence::EQUALS,
            TokenType::GT => Precedence::LESSGREATER,
            TokenType::LT => Precedence::LESSGREATER,
            TokenType::PLUS => Precedence::SUM,
            TokenType::MINUS => Precedence::SUM,
            TokenType::SLASH => Precedence::PRODUCT,
            TokenType::ASTERISK => Precedence::PRODUCT,
            TokenType::LPAREN => Precedence::CALL,
            _ => Precedence::LOWEST,
        }
    }
}

/// The tokens that stand between the two operands of an infix expression.
pub open spec fn spec_is_binary_operator(token: TokenType) -> bool {
    token == TokenType::PLUS || token == TokenType::MINUS || token == TokenType::SLASH || token
        == TokenType::ASTERISK || token == TokenType::EQ || token == TokenType::NOTEQ || token
        == TokenType::LT || token == TokenType::GT
}

} // verus!
