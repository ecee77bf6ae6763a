//! The parser's state and the steps that read it or move it forward.

use vstd::prelude::*;
use crate::ast::{
    identifiers_model, lemma_identifiers_model_push, Boolean, Expression, ExpressionModel,
    Identifier, IntegerLiteral,
};
use crate::lexer::{lemma_next_token_after_blanks, Lexer};
use crate::parser::error::{
    error_option_model, errors_model, expression_result_model, identifiers_result_model,
    ParseError, ParseErrorKind,
};
use crate::parser::model::{
    lemma_advance, spec_advance, spec_error_at_current, spec_expect_peek, spec_identifier,
    spec_initial, spec_parameters_loop, spec_parse_parameters, spec_synchronize, ParserModel,
};
use crate::parser::precedence::Precedence;
use crate::token::{Token, TokenType};
use crate::utils::{parse_integer, spec_parse_integer};

verus! {

/// How deep expressions and blocks may nest unless the caller says otherwise.
pub const DEFAULT_MAX_DEPTH: usize = 200;

/// A parser over a tokenizer. It looks one token ahead.
#[derive(Debug)]
pub struct Parser {
    lexer: Lexer,
    current_token: Token,
    peek_token: Token,
    current_position: usize,
    peek_position: usize,
    errors: Vec<ParseError>,
    max_depth: usize,
}

impl View for Parser {
    type V = ParserModel;

    closed spec fn view(&self) -> ParserModel {
        ParserModel {
            lexer: self.lexer@,
            current: self.current_token@,
            peek: self.peek_token@,
            current_position: self.current_position as nat,
            peek_position: self.peek_position as nat,
            errors: errors_model(self.errors@),
            max_depth: self.max_depth as nat,
        }
    }
}

impl Parser {
    /// A parser at the start of the tokenizer's text, with the default
    /// nesting limit.
    pub fn new(lexer: Lexer) -> (parser: Parser)
        ensures
            parser@ == spec_initial(lexer@, DEFAULT_MAX_DEPTH as nat),
    {
        Parser::with_max_depth(lexer, DEFAULT_MAX_DEPTH)
    }

    /// A parser that lets expressions and blocks nest `max_depth` levels
    /// deep.
    pub fn with_max_depth(lexer: Lexer, max_depth: usize) -> (parser: Parser)
        ensures
            parser@ == spec_initial(lexer@, max_depth as nat),
    {
        let mut parser = Parser {
            lexer,
            current_token: Token::new(TokenType::ILLEGAL, ""),
            peek_token: Token::new(TokenType::ILLEGAL, ""),
            current_position: 0,
            peek_position: 0,
            errors: Vec::new(),
            max_depth,
        };
        proof {
            reveal_strlit("");
            assert(""@ =~= Seq::<char>::empty());
            assert(errors_model(parser.errors@) =~= Seq::empty());
        }
        parser.next_token();
        parser.next_token();
        parser
    }

    pub(crate) fn next_token(&mut self)
        ensures
            final(self)@ == spec_advance(old(self)@),
            final(self)@.work() <= old(self)@.work(),
            old(self)@.peek.token_type != TokenType::EOF ==> final(self)@.work() < old(
                self,
            )@.work(),
            final(self)@.span() <= old(self)@.span(),
            old(self)@.current.token_type != TokenType::EOF ==> final(self)@.span() < old(
                self,
            )@.span(),
    {
        proof {
            reveal(spec_advance);
            lemma_advance(self@);
            lemma_next_token_after_blanks(self.lexer@.input, self.lexer@.position);
        }
        self.current_token = self.peek_token.duplicate();
        self.current_position = self.peek_position;
        self.lexer.skip_whitespace();
        self.peek_position = self.lexer.position();
        self.peek_token = self.lexer.next_token();
    }

    pub(crate) fn current_token_copy(&self) -> (t: Token)
        ensures
            t@ == self@.current,
    {
        self.current_token.duplicate()
    }

    pub(crate) fn current_kind(&self) -> (kind: TokenType)
        ensures
            kind == self@.current.token_type,
    {
        self.current_token.token_type
    }

    pub(crate) fn current_literal(&self) -> (literal: String)
        ensures
            literal@ == self@.current.literal,
    {
        self.current_token.literal.clone()
    }

    /// The nesting limit this parser was made with.
    pub fn max_depth(&self) -> (depth: usize)
        ensures
            depth == self@.max_depth,
    {
        self.max_depth
    }

    /// Adds a diagnostic.
    pub(crate) fn record(&mut self, error: ParseError)
        ensures
            final(self)@ == old(self)@.record(error@),
    {
        proof {
            assert(errors_model(self.errors@.push(error)) =~= errors_model(self.errors@).push(
                error@,
            ));
        }
        self.errors.push(error);
    }

    /// Hands out the diagnostics recorded so far and forgets them.
    pub(crate) fn take_errors(&mut self) -> (errors: Vec<ParseError>)
        ensures
            final(self)@ == old(self)@.without_errors(),
            errors_model(errors@) == old(self)@.errors,
    {
        let mut errors: Vec<ParseError> = Vec::new();
        core::mem::swap(&mut errors, &mut self.errors);
        proof {
            assert(errors_model(self.errors@) =~= Seq::empty());
        }
        errors
    }

    pub(crate) fn current_token_is(&self, t: &TokenType) -> (r: bool)
        ensures
            r == (self@.current.token_type == *t),
    {
        self.current_token.token_type == *t
    }

    pub(crate) fn peek_token_is(&self, t: &TokenType) -> (r: bool)
        ensures
            r == (self@.peek.token_type == *t),
    {
        self.peek_token.token_type == *t
    }

    pub(crate) fn current_precedence(&self) -> (p: Precedence)
        ensures
            p == Precedence::spec_from_token(self@.current.token_type),
    {
        Precedence::from_token(&self.current_token.token_type)
    }

    pub(crate) fn peek_precedence(&self) -> (p: Precedence)
        ensures
            p == Precedence::spec_from_token(self@.peek.token_type),
    {
        Precedence::from_token(&self.peek_token.token_type)
    }

    pub(crate) fn error_at_current(&self, kind: ParseErrorKind) -> (e: ParseError)
        ensures
            e@ == spec_error_at_current(self@, kind),
    {
        ParseError {
            kind,
            expected: None,
            actual: self.current_token.duplicate(),
            position: self.current_position,
        }
    }

    pub(crate) fn expect_peek_token(&mut self, token_type: TokenType) -> (r: Option<ParseError>)
        ensures
            final(self)@ == spec_expect_peek(old(self)@, token_type).0,
            error_option_model(r) == spec_expect_peek(old(self)@, token_type).1,
            final(self)@.work() <= old(self)@.work(),
    {
        if self.peek_token_is(&token_type) {
            self.next_token();
            None
        } else {
            Some(
                ParseError {
                    kind: ParseErrorKind::UnexpectedToken,
                    expected: Some(token_type),
                    actual: self.peek_token.duplicate(),
                    position: self.peek_position,
                },
            )
        }
    }

    pub(crate) fn current_identifier(&self) -> (identifier: Identifier)
        ensures
            identifier@ == spec_identifier(self@.current),
    {
        Identifier {
            token: self.current_token.duplicate(),
            value: self.current_token.literal.clone(),
        }
    }

    pub(crate) fn parse_identifier(&self) -> (e: Expression)
        ensures
            e@ == ExpressionModel::Identifier(spec_identifier(self@.current)),
    {
        Expression::Identifier(self.current_identifier())
    }

    pub(crate) fn parse_integer_literal(&self) -> (r: Result<Expression, ParseError>)
        ensures
            expression_result_model(r) == match spec_parse_integer(self@.current.literal) {
                Some(value) => Ok(ExpressionModel::IntegerLiteral { token: self@.current, value }),
                None => Err(spec_error_at_current(self@, ParseErrorKind::IntegerOutOfRange)),
            },
    {
        match parse_integer(self.current_token.literal.as_str()) {
            Some(value) => Ok(
                Expression::IntegerLiteral(
                    IntegerLiteral { token: self.current_token.duplicate(), value },
                ),
            ),
            None => Err(self.error_at_current(ParseErrorKind::IntegerOutOfRange)),
        }
    }

    pub(crate) fn parse_boolean(&self) -> (e: Expression)
        ensures
            e@ == (ExpressionModel::Boolean {
                token: self@.current,
                value: self@.current.token_type == TokenType::TRUE,
            }),
    {
        Expression::Boolean(
            Boolean {
                token: self.current_token.duplicate(),
                value: self.current_token_is(&TokenType::TRUE),
            },
        )
    }

    /// Skips to the next statement boundary.
    pub(crate) fn synchronize(&mut self)
        ensures
            final(self)@ == spec_synchronize(old(self)@),
            final(self)@.work() <= old(self)@.work(),
    {
        while !(self.current_token_is(&TokenType::SEMICOLON) || self.current_token_is(
            &TokenType::EOF,
        ) || self.peek_token_is(&TokenType::RBRACE))
            invariant
                spec_synchronize(self@) == spec_synchronize(old(self)@),
                self@.work() <= old(self)@.work(),
            decreases self@.span(),
        {
            self.next_token();
        }
    }

    pub(crate) fn parse_function_parameters(&mut self) -> (r: Result<Vec<Identifier>, ParseError>)
        ensures
            final(self)@ == spec_parse_parameters(old(self)@).0,
            identifiers_result_model(r) == spec_parse_parameters(old(self)@).1,
            final(self)@.work() <= old(self)@.work(),
    {
        let mut identifiers: Vec<Identifier> = Vec::new();
        if self.peek_token_is(&TokenType::RPAREN) {
            self.next_token();
            proof {
                assert(identifiers_model(identifiers@) =~= Seq::empty());
            }
            return Ok(identifiers);
        }
        match self.expect_peek_token(TokenType::IDENT) {
            Some(e) => {
                return Err(e);
            },
            None => {},
        }
        identifiers.push(self.current_identifier());
        proof {
            assert(identifiers_model(identifiers@) =~= seq![spec_identifier(self@.current)]);
        }
        while self.peek_token_is(&TokenType::COMMA)
            invariant
                spec_parameters_loop(self@, identifiers_model(identifiers@))
                    == spec_parse_parameters(old(self)@),
                self@.work() <= old(self)@.work(),
            decreases self@.work(),
        {
            let ghost before = identifiers@;
            self.next_token();
            match self.expect_peek_token(TokenType::IDENT) {
                Some(e) => {
                    return Err(e);
                },
                None => {},
            }
            let identifier: Identifier = self.current_identifier();
            proof {
                lemma_identifiers_model_push(before, identifier);
            }
            identifiers.push(identifier);
        }
        match self.expect_peek_token(TokenType::RPAREN) {
            Some(e) => Err(e),
            None => Ok(identifiers),
        }
    }
}

} // verus!
