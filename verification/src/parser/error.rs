//! Diagnostics of the parser.

use vstd::prelude::*;
use crate::ast::{
    expressions_model, identifiers_model, Expression, ExpressionModel, Identifier,
    IdentifierModel, StatementModel, Statements,
};
use crate::token::{Token, TokenModel, TokenType};

verus! {

/// What went wrong at a token.
#[derive(Debug, Clone, Copy, PartialEq, Eq, Structural)]
pub enum ParseErrorKind {
    /// A token of one kind was required and another one was found.
    UnexpectedToken,
    /// No expression can start with the token.
    NoPrefixHandler,
    /// The integer literal does not fit in 64 bits with a sign.
    IntegerOutOfRange,
    /// Expressions and blocks are nested deeper than the parser's limit.
    NestingTooDeep,
}

/// A diagnostic: what went wrong, the kind of token that was required (for
/// `UnexpectedToken`), the token that was found, and the position of its
/// first character in the source text.
#[derive(Debug, PartialEq, Eq)]
pub struct ParseError {
    pub kind: ParseErrorKind,
    pub expected: Option<TokenType>,
    pub actual: Token,
    pub position: usize,
}

/// The mathematical model of a diagnostic.
pub struct ParseErrorModel {
    pub kind: ParseErrorKind,
    pub expected: Option<TokenType>,
    pub actual: TokenModel,
    pub position: nat,
}

impl View for ParseError {
    type V = ParseErrorModel;

    open spec fn view(&self) -> ParseErrorModel {
        ParseErrorModel {
            kind: self.kind,
            expected: self.expected,
            actual: self.actual@,
            position: self.position as nat,
        }
    }
}

impl ParseError {
    /// A copy of this diagnostic.
    pub fn duplicate(&self) -> (e: ParseError)
        ensures
            e == *self,
    {
        ParseError {
            kind: self.kind,
            expected: self.expected,
            actual: self.actual.duplicate(),
            position: self.position,
        }
    }
}

impl Clone for ParseError {
    fn clone(&self) -> (e: Self)
        ensures
            e == *self,
    {
        self.duplicate()
    }
}

/// The models of a sequence of diagnostics, in order.
pub open spec fn errors_model(v: Seq<ParseError>) -> Seq<ParseErrorModel> {
    Seq::new(v.len(), |i: int| v[i]@)
}

pub open spec fn error_option_model(r: Option<ParseError>) -> Option<ParseErrorModel> {
    match r {
        Some(e) => Some(e@),
        None => None,
    }
}

pub open spec fn expression_result_model(r: Result<Expression, ParseError>) -> Result<
    ExpressionModel,
    ParseErrorModel,
> {
    match r {
        Ok(x) => Ok(x@),
        Err(e) => Err(e@),
    }
}

pub open spec fn statement_result_model(r: Result<Statements, ParseError>) -> Result<
    StatementModel,
    ParseErrorModel,
> {
    match r {
        Ok(x) => Ok(x@),
        Err(e) => Err(e@),
    }
}

pub open spec fn statement_option_model(r: Option<Statements>) -> Option<StatementModel> {
    match r {
        Some(x) => Some(x@),
        None => None,
    }
}

pub open spec fn identifiers_result_model(r: Result<Vec<Identifier>, ParseError>) -> Result<
    Seq<IdentifierModel>,
    ParseErrorModel,
> {
    match r {
        Ok(x) => Ok(identifiers_model(x@)),
        Err(e) => Err(e@),
    }
}

pub open spec fn expressions_result_model(r: Result<Vec<Expression>, ParseError>) -> Result<
    Seq<ExpressionModel>,
    ParseErrorModel,
> {
    match r {
        Ok(x) => Ok(expressions_model(x@)),
        Err(e) => Err(e@),
    }
}

} // verus!
