//! The grammar in executable form: each method does what the function of
//! the same name on the model says.

use vstd::prelude::*;
use crate::ast::{
    expressions_model, lemma_call_model, lemma_expressions_model_push, lemma_function_model,
    lemma_if_model, lemma_statements_model_push, statements_model, BlockStatement,
    CallExpression, Expression, ExpressionStatement, FunctionLiteral, Identifier, IfExpression,
    InfixExpression, LetStatement, PrefixExpression, Program, ReturnStatement, Statements,
};
use crate::parser::error::{
    errors_model, expression_result_model, expressions_result_model, statement_option_model,
    statement_result_model, ParseError, ParseErrorKind,
};
use crate::lexer::Lexer;
use crate::parser::model::{
    spec_is_parse_of, spec_arguments_loop, spec_infix_loop, spec_parse_arguments, spec_parse_block,
    spec_parse_expression, spec_parse_infix, spec_parse_prefix, spec_parse_program,
    spec_parse_statement, spec_parse_statement_strict, spec_parse_statements,
};
use crate::parser::precedence::{spec_is_binary_operator, Precedence};
use crate::parser::state::{Parser, DEFAULT_MAX_DEPTH};
use crate::token::{Token, TokenType};

verus! {

/// Parses a source text from its start, with the default nesting limit.
pub fn parse(input: &str) -> (r: (Program, Vec<ParseError>))
    ensures
        spec_is_parse_of(input@, DEFAULT_MAX_DEPTH as nat, r.0@, errors_model(r.1@)),
{
    let mut parser: Parser = Parser::new(Lexer::new(input));
    parser.parse_program()
}

impl Parser {
    /// Parses the whole input. Returns the program built from the
    /// statements that could be parsed, and the diagnostics in the order
    /// in which they arose; no diagnostics means success.
    pub fn parse_program(&mut self) -> (r: (Program, Vec<ParseError>))
        ensures
            final(self)@ == spec_parse_program(old(self)@).0,
            r.0@ == spec_parse_program(old(self)@).1,
            errors_model(r.1@) == spec_parse_program(old(self)@).2,
    {
        let depth: usize = self.max_depth();
        let statements: Vec<Statements> = self.parse_statements(false, depth);
        let errors: Vec<ParseError> = self.take_errors();
        (Program { statements }, errors)
    }

    fn parse_statements(&mut self, in_block: bool, depth: usize) -> (statements: Vec<Statements>)
        ensures
            final(self)@ == spec_parse_statements(
                old(self)@,
                Seq::empty(),
                in_block,
                depth as nat,
            ).0,
            statements_model(statements@) == spec_parse_statements(
                old(self)@,
                Seq::empty(),
                in_block,
                depth as nat,
            ).1,
            final(self)@.work() <= old(self)@.work(),
        decreases depth, 6nat,
    {
        let mut statements: Vec<Statements> = Vec::new();
        proof {
            assert(statements_model(statements@) =~= Seq::empty());
        }
        while !(self.current_token_is(&TokenType::EOF) || (in_block && self.current_token_is(
            &TokenType::RBRACE,
        )))
            invariant
                spec_parse_statements(
                    self@,
                    statements_model(statements@),
                    in_block,
                    depth as nat,
                ) == spec_parse_statements(old(self)@, Seq::empty(), in_block, depth as nat),
                self@.work() <= old(self)@.work(),
            decreases self@.span(),
        {
            match self.parse_statement(depth) {
                Some(statement) => {
                    proof {
                        lemma_statements_model_push(statements@, statement);
                    }
                    statements.push(statement);
                },
                None => {},
            }
            self.next_token();
        }
        statements
    }

    fn parse_statement(&mut self, depth: usize) -> (r: Option<Statements>)
        ensures
            final(self)@ == spec_parse_statement(old(self)@, depth as nat).0,
            statement_option_model(r) == spec_parse_statement(old(self)@, depth as nat).1,
            final(self)@.work() <= old(self)@.work(),
        decreases depth, 5nat,
    {
        match self.parse_statement_strict(depth) {
            Ok(statement) => Some(statement),
            Err(e) => {
                self.synchronize();
                self.record(e);
                None
            },
        }
    }

    fn parse_statement_strict(&mut self, depth: usize) -> (r: Result<Statements, ParseError>)
        ensures
            final(self)@ == spec_parse_statement_strict(old(self)@, depth as nat).0,
            statement_result_model(r) == spec_parse_statement_strict(old(self)@, depth as nat).1,
            final(self)@.work() <= old(self)@.work(),
        decreases depth, 4nat,
    {
        let kind: TokenType = self.current_kind();
        if kind == TokenType::LET {
            self.parse_let_statement(depth)
        } else if kind == TokenType::RETURN {
            self.parse_return_statement(depth)
        } else {
            self.parse_expression_statement(depth)
        }
    }

    fn parse_let_statement(&mut self, depth: usize) -> (r: Result<Statements, ParseError>)
        requires
            old(self)@.current.token_type == TokenType::LET,
        ensures
            final(self)@ == spec_parse_statement_strict(old(self)@, depth as nat).0,
            statement_result_model(r) == spec_parse_statement_strict(old(self)@, depth as nat).1,
            final(self)@.work() <= old(self)@.work(),
        decreases depth, 3nat,
    {
        let token: Token = self.current_token_copy();
        match self.expect_peek_token(TokenType::IDENT) {
            Some(e) => {
                return Err(e);
            },
            None => {},
        }
        let name: Identifier = self.current_identifier();
        match self.expect_peek_token(TokenType::ASSIGN) {
            Some(e) => {
                return Err(e);
            },
            None => {},
        }
        self.next_token();
        let value: Expression = match self.parse_expression(Precedence::LOWEST, depth) {
            Ok(value) => value,
            Err(e) => {
                return Err(e);
            },
        };
        match self.expect_peek_token(TokenType::SEMICOLON) {
            Some(e) => {
                return Err(e);
            },
            None => {},
        }
        Ok(Statements::LetStatement(LetStatement { token, name, value }))
    }

    fn parse_return_statement(&mut self, depth: usize) -> (r: Result<Statements, ParseError>)
        requires
            old(self)@.current.token_type == TokenType::RETURN,
        ensures
            final(self)@ == spec_parse_statement_strict(old(self)@, depth as nat).0,
            statement_result_model(r) == spec_parse_statement_strict(old(self)@, depth as nat).1,
            final(self)@.work() <= old(self)@.work(),
        decreases depth, 3nat,
    {
        let token: Token = self.current_token_copy();
        self.next_token();
        let return_value: Expression = match self.parse_expression(Precedence::LOWEST, depth) {
            Ok(value) => value,
            Err(e) => {
                return Err(e);
            },
        };
        match self.expect_peek_token(TokenType::SEMICOLON) {
            Some(e) => {
                return Err(e);
            },
            None => {},
        }
        Ok(Statements::ReturnStatement(ReturnStatement { token, return_value }))
    }

    fn parse_expression_statement(&mut self, depth: usize) -> (r: Result<Statements, ParseError>)
        requires
            old(self)@.current.token_type != TokenType::LET,
            old(self)@.current.token_type != TokenType::RETURN,
        ensures
            final(self)@ == spec_parse_statement_strict(old(self)@, depth as nat).0,
            statement_result_model(r) == spec_parse_statement_strict(old(self)@, depth as nat).1,
            final(self)@.work() <= old(self)@.work(),
        decreases depth, 3nat,
    {
        let token: Token = self.current_token_copy();
        let expression: Expression = match self.parse_expression(Precedence::LOWEST, depth) {
            Ok(value) => value,
            Err(e) => {
                return Err(e);
            },
        };
        if self.peek_token_is(&TokenType::SEMICOLON) {
            self.next_token();
        }
        Ok(Statements::ExpressionStatement(ExpressionStatement { token, expression }))
    }

    fn parse_expression(&mut self, precedence: Precedence, depth: usize) -> (r: Result<
        Expression,
        ParseError,
    >)
        ensures
            final(self)@ == spec_parse_expression(old(self)@, precedence, depth as nat).0,
            expression_result_model(r) == spec_parse_expression(
                old(self)@,
                precedence,
                depth as nat,
            ).1,
            final(self)@.work() <= old(self)@.work(),
        decreases depth, 2nat,
    {
        if depth == 0 {
            return Err(self.error_at_current(ParseErrorKind::NestingTooDeep));
        }
        let d: usize = depth - 1;
        let mut left: Expression = match self.parse_prefix(d) {
            Ok(left) => left,
            Err(e) => {
                return Err(e);
            },
        };
        while !self.peek_token_is(&TokenType::SEMICOLON) && precedence.rank()
            < self.peek_precedence().rank()
            invariant
                d + 1 == depth,
                spec_infix_loop(self@, left@, precedence, d as nat) == spec_parse_expression(
                    old(self)@,
                    precedence,
                    depth as nat,
                ),
                self@.work() <= old(self)@.work(),
            decreases self@.work(),
        {
            self.next_token();
            left = match self.parse_infix(left, d) {
                Ok(applied) => applied,
                Err(e) => {
                    return Err(e);
                },
            };
        }
        Ok(left)
    }

    fn parse_prefix(&mut self, depth: usize) -> (r: Result<Expression, ParseError>)
        ensures
            final(self)@ == spec_parse_prefix(old(self)@, depth as nat).0,
            expression_result_model(r) == spec_parse_prefix(old(self)@, depth as nat).1,
            final(self)@.work() <= old(self)@.work(),
        decreases depth, 10nat,
    {
        match self.current_kind() {
            TokenType::IDENT => Ok(self.parse_identifier()),
            TokenType::INT => self.parse_integer_literal(),
            TokenType::BANG | TokenType::MINUS => self.parse_prefix_expression(depth),
            TokenType::TRUE | TokenType::FALSE => Ok(self.parse_boolean()),
            TokenType::LPAREN => self.parse_group_expression(depth),
            TokenType::IF => self.parse_if_expression(depth),
            TokenType::FUNCTION => self.parse_function_literal(depth),
            _ => Err(self.error_at_current(ParseErrorKind::NoPrefixHandler)),
        }
    }

    fn parse_infix(&mut self, left: Expression, depth: usize) -> (r: Result<
        Expression,
        ParseError,
    >)
        ensures
            final(self)@ == spec_parse_infix(old(self)@, left@, depth as nat).0,
            expression_result_model(r) == spec_parse_infix(old(self)@, left@, depth as nat).1,
            final(self)@.work() <= old(self)@.work(),
        decreases depth, 10nat,
    {
        match self.current_kind() {
            TokenType::PLUS
            | TokenType::MINUS
            | TokenType::SLASH
            | TokenType::ASTERISK
            | TokenType::EQ
            | TokenType::NOTEQ
            | TokenType::LT
            | TokenType::GT => self.parse_infix_expression(left, depth),
            TokenType::LPAREN => self.parse_call_expression(left, depth),
            _ => Ok(left),
        }
    }

    fn parse_infix_expression(&mut self, left: Expression, depth: usize) -> (r: Result<
        Expression,
        ParseError,
    >)
        requires
            spec_is_binary_operator(old(self)@.current.token_type),
        ensures
            final(self)@ == spec_parse_infix(old(self)@, left@, depth as nat).0,
            expression_result_model(r) == spec_parse_infix(old(self)@, left@, depth as nat).1,
            final(self)@.work() <= old(self)@.work(),
        decreases depth, 9nat,
    {
        let token: Token = self.current_token_copy();
        let operator: String = self.current_literal();
        let precedence: Precedence = self.current_precedence();
        self.next_token();
        let right: Expression = match self.parse_expression(precedence, depth) {
            Ok(right) => right,
            Err(e) => {
                return Err(e);
            },
        };
        Ok(
            Expression::InfixExpression(
                InfixExpression { token, operator, left: Box::new(left), right: Box::new(right) },
            ),
        )
    }

    fn parse_prefix_expression(&mut self, depth: usize) -> (r: Result<Expression, ParseError>)
        requires
            old(self)@.current.token_type == TokenType::BANG || old(self)@.current.token_type
                == TokenType::MINUS,
        ensures
            final(self)@ == spec_parse_prefix(old(self)@, depth as nat).0,
            expression_result_model(r) == spec_parse_prefix(old(self)@, depth as nat).1,
            final(self)@.work() <= old(self)@.work(),
        decreases depth, 9nat,
    {
        let token: Token = self.current_token_copy();
        let operator: String = self.current_literal();
        self.next_token();
        let right: Expression = match self.parse_expression(Precedence::PREFIX, depth) {
            Ok(right) => right,
            Err(e) => {
                return Err(e);
            },
        };
        Ok(
            Expression::PrefixExpression(
                PrefixExpression { token, operator, right: Box::new(right) },
            ),
        )
    }

    fn parse_group_expression(&mut self, depth: usize) -> (r: Result<Expression, ParseError>)
        requires
            old(self)@.current.token_type == TokenType::LPAREN,
        ensures
            final(self)@ == spec_parse_prefix(old(self)@, depth as nat).0,
            expression_result_model(r) == spec_parse_prefix(old(self)@, depth as nat).1,
            final(self)@.work() <= old(self)@.work(),
        decreases depth, 9nat,
    {
        self.next_token();
        let expression: Expression = match self.parse_expression(Precedence::LOWEST, depth) {
            Ok(expression) => expression,
            Err(e) => {
                return Err(e);
            },
        };
        match self.expect_peek_token(TokenType::RPAREN) {
            Some(e) => Err(e),
            None => Ok(expression),
        }
    }

    fn parse_if_expression(&mut self, depth: usize) -> (r: Result<Expression, ParseError>)
        requires
            old(self)@.current.token_type == TokenType::IF,
        ensures
            final(self)@ == spec_parse_prefix(old(self)@, depth as nat).0,
            expression_result_model(r) == spec_parse_prefix(old(self)@, depth as nat).1,
            final(self)@.work() <= old(self)@.work(),
        decreases depth, 9nat,
    {
        let token: Token = self.current_token_copy();
        match self.expect_peek_token(TokenType::LPAREN) {
            Some(e) => {
                return Err(e);
            },
            None => {},
        }
        self.next_token();
        let condition: Expression = match self.parse_expression(Precedence::LOWEST, depth) {
            Ok(condition) => condition,
            Err(e) => {
                return Err(e);
            },
        };
        match self.expect_peek_token(TokenType::RPAREN) {
            Some(e) => {
                return Err(e);
            },
            None => {},
        }
        match self.expect_peek_token(TokenType::LBRACE) {
            Some(e) => {
                return Err(e);
            },
            None => {},
        }
        let consequence: BlockStatement = self.parse_block_statement(depth);
        let mut alternative: Option<BlockStatement> = None;
        if self.peek_token_is(&TokenType::ELSE) {
            self.next_token();
            match self.expect_peek_token(TokenType::LBRACE) {
                Some(e) => {
                    return Err(e);
                },
                None => {},
            }
            alternative = Some(self.parse_block_statement(depth));
        }
        let node: IfExpression = IfExpression {
            token,
            condition: Box::new(condition),
            consequence,
            alternative,
        };
        proof {
            lemma_if_model(node);
        }
        Ok(Expression::IfExpression(node))
    }

    fn parse_block_statement(&mut self, depth: usize) -> (block: BlockStatement)
        ensures
            final(self)@ == spec_parse_block(old(self)@, depth as nat).0,
            block@ == spec_parse_block(old(self)@, depth as nat).1,
            final(self)@.work() <= old(self)@.work(),
        decreases depth, 7nat,
    {
        let token: Token = self.current_token_copy();
        self.next_token();
        let statements: Vec<Statements> = self.parse_statements(true, depth);
        BlockStatement { token, statements }
    }

    fn parse_function_literal(&mut self, depth: usize) -> (r: Result<Expression, ParseError>)
        requires
            old(self)@.current.token_type == TokenType::FUNCTION,
        ensures
            final(self)@ == spec_parse_prefix(old(self)@, depth as nat).0,
            expression_result_model(r) == spec_parse_prefix(old(self)@, depth as nat).1,
            final(self)@.work() <= old(self)@.work(),
        decreases depth, 9nat,
    {
        let token: Token = self.current_token_copy();
        match self.expect_peek_token(TokenType::LPAREN) {
            Some(e) => {
                return Err(e);
            },
            None => {},
        }
        let parameters: Vec<Identifier> = match self.parse_function_parameters() {
            Ok(parameters) => parameters,
            Err(e) => {
                return Err(e);
            },
        };
        match self.expect_peek_token(TokenType::LBRACE) {
            Some(e) => {
                return Err(e);
            },
            None => {},
        }
        let body: BlockStatement = self.parse_block_statement(depth);
        let node: FunctionLiteral = FunctionLiteral { token, parameters, body };
        proof {
            lemma_function_model(node);
        }
        Ok(Expression::FunctionLiteral(node))
    }

    fn parse_call_expression(&mut self, function: Expression, depth: usize) -> (r: Result<
        Expression,
        ParseError,
    >)
        requires
            old(self)@.current.token_type == TokenType::LPAREN,
        ensures
            final(self)@ == spec_parse_infix(old(self)@, function@, depth as nat).0,
            expression_result_model(r) == spec_parse_infix(old(self)@, function@, depth as nat).1,
            final(self)@.work() <= old(self)@.work(),
        decreases depth, 9nat,
    {
        let token: Token = self.current_token_copy();
        let arguments: Vec<Expression> = match self.parse_call_arguments(depth) {
            Ok(arguments) => arguments,
            Err(e) => {
                return Err(e);
            },
        };
        let node: CallExpression = CallExpression {
            token,
            function: Box::new(function),
            arguments,
        };
        proof {
            lemma_call_model(node);
        }
        Ok(Expression::CallExpression(node))
    }

    fn parse_call_arguments(&mut self, depth: usize) -> (r: Result<Vec<Expression>, ParseError>)
        ensures
            final(self)@ == spec_parse_arguments(old(self)@, depth as nat).0,
            expressions_result_model(r) == spec_parse_arguments(old(self)@, depth as nat).1,
            final(self)@.work() <= old(self)@.work(),
        decreases depth, 8nat,
    {
        let mut arguments: Vec<Expression> = Vec::new();
        if self.peek_token_is(&TokenType::RPAREN) {
            self.next_token();
            proof {
                assert(expressions_model(arguments@) =~= Seq::empty());
            }
            return Ok(arguments);
        }
        self.next_token();
        let first: Expression = match self.parse_expression(Precedence::LOWEST, depth) {
            Ok(first) => first,
            Err(e) => {
                return Err(e);
            },
        };
        proof {
            assert(expressions_model(arguments@.push(first)) =~= seq![first@]);
        }
        arguments.push(first);
        while self.peek_token_is(&TokenType::COMMA)
            invariant
                spec_arguments_loop(self@, expressions_model(arguments@), depth as nat)
                    == spec_parse_arguments(old(self)@, depth as nat),
                self@.work() <= old(self)@.work(),
            decreases self@.work(),
        {
            self.next_token();
            self.next_token();
            let argument: Expression = match self.parse_expression(Precedence::LOWEST, depth) {
                Ok(argument) => argument,
                Err(e) => {
                    return Err(e);
                },
            };
            proof {
                lemma_expressions_model_push(arguments@, argument);
            }
            arguments.push(argument);
        }
        match self.expect_peek_token(TokenType::RPAREN) {
            Some(e) => Err(e),
            None => Ok(arguments),
        }
    }
}

} // verus!
