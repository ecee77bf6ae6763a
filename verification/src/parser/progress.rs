//! The parser only moves forward: no step of the grammar adds tokens to
//! the work that lies ahead, every round of a loop takes some away, and the
//! loops stop only where the grammar says they do.

use vstd::prelude::*;
use crate::ast::{ExpressionModel, IdentifierModel, StatementModel};
use crate::parser::model::{
    lemma_advance, spec_advance, spec_arguments_loop, spec_expect_peek, spec_infix_loop,
    spec_parameters_loop, spec_parse_arguments, spec_parse_block, spec_parse_expression,
    spec_parse_infix, spec_parse_parameters, spec_parse_prefix, spec_parse_program,
    spec_parse_statement,
    spec_parse_statement_strict, spec_parse_statements, spec_synchronize, ParserModel,
};
use crate::parser::precedence::Precedence;
use crate::token::TokenType;

verus! {

/// Whether `after` can follow `before`: the source text and the nesting
/// limit are the same, no work was added, and the diagnostics of `before`
/// are still there, in front of any new ones.
pub open spec fn spec_follows(before: ParserModel, after: ParserModel) -> bool {
    &&& after.lexer.input == before.lexer.input
    &&& after.max_depth == before.max_depth
    &&& after.work() <= before.work()
    &&& before.errors.len() <= after.errors.len()
    &&& forall|i: int| 0 <= i < before.errors.len() ==> after.errors[i] == before.errors[i]
}

/// Requiring a token never adds work.
pub proof fn lemma_expect_peek_forward(m: ParserModel, kind: TokenType)
    ensures
        spec_follows(m, spec_expect_peek(m, kind).0),
{
    lemma_advance(m);
}

/// Skipping to a statement boundary never adds work.
pub proof fn lemma_synchronize_forward(m: ParserModel)
    ensures
        spec_follows(m, spec_synchronize(m)),
    decreases m.span(),
{
    if !(m.current.token_type == TokenType::SEMICOLON || m.current.token_type == TokenType::EOF
        || m.peek.token_type == TokenType::RBRACE) {
        lemma_advance(m);
        lemma_synchronize_forward(spec_advance(m));
    }
}

/// Reading the rest of a parameter list never adds work.
pub proof fn lemma_parameters_loop_forward(m: ParserModel, parameters: Seq<IdentifierModel>)
    ensures
        spec_follows(m, spec_parameters_loop(m, parameters).0),
    decreases m.work(),
{
    if m.peek.token_type == TokenType::COMMA {
        let m1 = spec_advance(m);
        lemma_advance(m);
        lemma_advance(m1);
        let (m2, error) = spec_expect_peek(m1, TokenType::IDENT);
        if error is None {
            lemma_parameters_loop_forward(
                m2,
                parameters.push(crate::parser::model::spec_identifier(m2.current)),
            );
        }
    } else {
        lemma_advance(m);
    }
}

/// Reading a parameter list never adds work.
pub proof fn lemma_parse_parameters_forward(m: ParserModel)
    ensures
        spec_follows(m, spec_parse_parameters(m).0),
{
    lemma_advance(m);
    if m.peek.token_type != TokenType::RPAREN {
        let (m1, error) = spec_expect_peek(m, TokenType::IDENT);
        if error is None {
            lemma_parameters_loop_forward(
                m1,
                seq![crate::parser::model::spec_identifier(m1.current)],
            );
        }
    }
}

/// Parsing an expression never adds work.
pub proof fn lemma_parse_expression_forward(m: ParserModel, precedence: Precedence, depth: nat)
    ensures
        spec_follows(m, spec_parse_expression(m, precedence, depth).0),
    decreases depth, 2nat, 0nat,
{
    if depth > 0 {
        let d = (depth - 1) as nat;
        lemma_parse_prefix_forward(m, d);
        let (m1, operand) = spec_parse_prefix(m, d);
        match operand {
            Ok(left) => {
                lemma_infix_loop_forward(m1, left, precedence, d);
            },
            Err(_) => {},
        }
    }
}

/// Every round of the operator loop takes work away, so the loop never
/// stops for want of progress; and the loop as a whole adds none.
pub proof fn lemma_infix_loop_forward(
    m: ParserModel,
    left: ExpressionModel,
    precedence: Precedence,
    depth: nat,
)
    ensures
        spec_follows(m, spec_infix_loop(m, left, precedence, depth).0),
        m.peek.token_type != TokenType::SEMICOLON && precedence.spec_rank()
            < Precedence::spec_from_token(m.peek.token_type).spec_rank() ==> spec_parse_infix(
            spec_advance(m),
            left,
            depth,
        ).0.work() < m.work(),
    decreases depth, 11nat, m.work(),
{
    if m.peek.token_type != TokenType::SEMICOLON && precedence.spec_rank()
        < Precedence::spec_from_token(m.peek.token_type).spec_rank() {
        let m1 = spec_advance(m);
        lemma_advance(m);
        lemma_parse_infix_forward(m1, left, depth);
        let (m2, applied) = spec_parse_infix(m1, left, depth);
        match applied {
            Ok(expression) => {
                lemma_infix_loop_forward(m2, expression, precedence, depth);
            },
            Err(_) => {},
        }
    }
}

/// Parsing an operand never adds work.
pub proof fn lemma_parse_prefix_forward(m: ParserModel, depth: nat)
    ensures
        spec_follows(m, spec_parse_prefix(m, depth).0),
    decreases depth, 10nat, 0nat,
{
    let kind = m.current.token_type;
    lemma_advance(m);
    if kind == TokenType::BANG || kind == TokenType::MINUS {
        lemma_parse_expression_forward(spec_advance(m), Precedence::PREFIX, depth);
    } else if kind == TokenType::LPAREN {
        lemma_parse_expression_forward(spec_advance(m), Precedence::LOWEST, depth);
        let (m1, inner) = spec_parse_expression(spec_advance(m), Precedence::LOWEST, depth);
        lemma_expect_peek_forward(m1, TokenType::RPAREN);
    } else if kind == TokenType::IF {
        let (m1, error1) = spec_expect_peek(m, TokenType::LPAREN);
        if error1 is None {
            lemma_advance(m1);
            lemma_parse_expression_forward(spec_advance(m1), Precedence::LOWEST, depth);
            let (m2, parsed) = spec_parse_expression(spec_advance(m1), Precedence::LOWEST, depth);
            if parsed is Ok {
                lemma_expect_peek_forward(m2, TokenType::RPAREN);
                let (m3, error3) = spec_expect_peek(m2, TokenType::RPAREN);
                if error3 is None {
                    lemma_expect_peek_forward(m3, TokenType::LBRACE);
                    let (m4, error4) = spec_expect_peek(m3, TokenType::LBRACE);
                    if error4 is None {
                        lemma_parse_block_forward(m4, depth);
                        let (m5, consequence) = spec_parse_block(m4, depth);
                        if m5.peek.token_type == TokenType::ELSE {
                            lemma_advance(m5);
                            lemma_expect_peek_forward(spec_advance(m5), TokenType::LBRACE);
                            let (m6, error6) = spec_expect_peek(
                                spec_advance(m5),
                                TokenType::LBRACE,
                            );
                            if error6 is None {
                                lemma_parse_block_forward(m6, depth);
                            }
                        }
                    }
                }
            }
        }
    } else if kind == TokenType::FUNCTION {
        let (m1, error1) = spec_expect_peek(m, TokenType::LPAREN);
        if error1 is None {
            lemma_parse_parameters_forward(m1);
            let (m2, parsed) = spec_parse_parameters(m1);
            if parsed is Ok {
                lemma_expect_peek_forward(m2, TokenType::LBRACE);
                let (m3, error3) = spec_expect_peek(m2, TokenType::LBRACE);
                if error3 is None {
                    lemma_parse_block_forward(m3, depth);
                }
            }
        }
    }
}

/// Applying an operator or a call never adds work.
pub proof fn lemma_parse_infix_forward(m: ParserModel, left: ExpressionModel, depth: nat)
    ensures
        spec_follows(m, spec_parse_infix(m, left, depth).0),
    decreases depth, 10nat, 0nat,
{
    let kind = m.current.token_type;
    lemma_advance(m);
    if crate::parser::precedence::spec_is_binary_operator(kind) {
        lemma_parse_expression_forward(spec_advance(m), Precedence::spec_from_token(kind), depth);
    } else if kind == TokenType::LPAREN {
        lemma_parse_arguments_forward(m, depth);
    }
}

/// Reading an argument list never adds work.
pub proof fn lemma_parse_arguments_forward(m: ParserModel, depth: nat)
    ensures
        spec_follows(m, spec_parse_arguments(m, depth).0),
    decreases depth, 9nat, 0nat,
{
    lemma_advance(m);
    if m.peek.token_type != TokenType::RPAREN {
        lemma_parse_expression_forward(spec_advance(m), Precedence::LOWEST, depth);
        let (m1, first) = spec_parse_expression(spec_advance(m), Precedence::LOWEST, depth);
        match first {
            Ok(argument) => {
                lemma_arguments_loop_forward(m1, seq![argument], depth);
            },
            Err(_) => {},
        }
    }
}

/// Every round of the argument loop takes work away, and the loop as a
/// whole adds none.
pub proof fn lemma_arguments_loop_forward(
    m: ParserModel,
    arguments: Seq<ExpressionModel>,
    depth: nat,
)
    ensures
        spec_follows(m, spec_arguments_loop(m, arguments, depth).0),
        m.peek.token_type == TokenType::COMMA ==> spec_parse_expression(
            spec_advance(spec_advance(m)),
            Precedence::LOWEST,
            depth,
        ).0.work() < m.work(),
    decreases depth, 8nat, m.work(),
{
    if m.peek.token_type == TokenType::COMMA {
        lemma_advance(m);
        lemma_advance(spec_advance(m));
        lemma_parse_expression_forward(spec_advance(spec_advance(m)), Precedence::LOWEST, depth);
        let (m1, parsed) = spec_parse_expression(
            spec_advance(spec_advance(m)),
            Precedence::LOWEST,
            depth,
        );
        match parsed {
            Ok(argument) => {
                lemma_arguments_loop_forward(m1, arguments.push(argument), depth);
            },
            Err(_) => {},
        }
    } else {
        lemma_expect_peek_forward(m, TokenType::RPAREN);
    }
}

/// Parsing a block never adds work.
pub proof fn lemma_parse_block_forward(m: ParserModel, depth: nat)
    ensures
        spec_follows(m, spec_parse_block(m, depth).0),
    decreases depth, 7nat, 0nat,
{
    lemma_advance(m);
    lemma_parse_statements_forward(spec_advance(m), Seq::empty(), true, depth);
}

/// Every round of the statement loop brings the end of the input nearer,
/// so the loop never stops for want of progress; and the loop as a whole
/// adds no work.
pub proof fn lemma_parse_statements_forward(
    m: ParserModel,
    statements: Seq<StatementModel>,
    in_block: bool,
    depth: nat,
)
    ensures
        spec_follows(m, spec_parse_statements(m, statements, in_block, depth).0),
        !(m.current.token_type == TokenType::EOF || (in_block && m.current.token_type
            == TokenType::RBRACE)) ==> spec_advance(spec_parse_statement(m, depth).0).span()
            < m.span(),
    decreases depth, 6nat, m.span(),
{
    if !(m.current.token_type == TokenType::EOF || (in_block && m.current.token_type
        == TokenType::RBRACE)) {
        lemma_parse_statement_forward(m, depth);
        let (m1, parsed) = spec_parse_statement(m, depth);
        let extended = match parsed {
            Some(statement) => statements.push(statement),
            None => statements,
        };
        lemma_advance(m1);
        let m2 = spec_advance(m1);
        lemma_parse_statements_forward(m2, extended, in_block, depth);
    }
}

/// Parsing a statement, recovery included, never adds work.
pub proof fn lemma_parse_statement_forward(m: ParserModel, depth: nat)
    ensures
        spec_follows(m, spec_parse_statement(m, depth).0),
    decreases depth, 5nat, 0nat,
{
    lemma_parse_statement_strict_forward(m, depth);
    let (m1, parsed) = spec_parse_statement_strict(m, depth);
    lemma_synchronize_forward(m1);
}

/// Parsing a statement never adds work.
pub proof fn lemma_parse_statement_strict_forward(m: ParserModel, depth: nat)
    ensures
        spec_follows(m, spec_parse_statement_strict(m, depth).0),
    decreases depth, 4nat, 0nat,
{
    let kind = m.current.token_type;
    lemma_advance(m);
    if kind == TokenType::LET {
        let (m1, error1) = spec_expect_peek(m, TokenType::IDENT);
        if error1 is None {
            lemma_expect_peek_forward(m1, TokenType::ASSIGN);
            let (m2, error2) = spec_expect_peek(m1, TokenType::ASSIGN);
            if error2 is None {
                lemma_advance(m2);
                lemma_parse_expression_forward(spec_advance(m2), Precedence::LOWEST, depth);
                let (m3, parsed) = spec_parse_expression(
                    spec_advance(m2),
                    Precedence::LOWEST,
                    depth,
                );
                lemma_expect_peek_forward(m3, TokenType::SEMICOLON);
            }
        }
    } else if kind == TokenType::RETURN {
        lemma_parse_expression_forward(spec_advance(m), Precedence::LOWEST, depth);
        let (m1, parsed) = spec_parse_expression(spec_advance(m), Precedence::LOWEST, depth);
        lemma_expect_peek_forward(m1, TokenType::SEMICOLON);
    } else {
        lemma_parse_expression_forward(m, Precedence::LOWEST, depth);
        let (m1, parsed) = spec_parse_expression(m, Precedence::LOWEST, depth);
        lemma_advance(m1);
    }
}

/// The statement loop stops only at the end of the input or, inside a
/// block, at the closing brace.
pub proof fn lemma_parse_statements_ends(
    m: ParserModel,
    statements: Seq<StatementModel>,
    in_block: bool,
    depth: nat,
)
    ensures
        ({
            let end = spec_parse_statements(m, statements, in_block, depth).0;
            end.current.token_type == TokenType::EOF || (in_block && end.current.token_type
                == TokenType::RBRACE)
        }),
    decreases m.span(),
{
    if !(m.current.token_type == TokenType::EOF || (in_block && m.current.token_type
        == TokenType::RBRACE)) {
        lemma_parse_statements_forward(m, statements, in_block, depth);
        let (m1, parsed) = spec_parse_statement(m, depth);
        let extended = match parsed {
            Some(statement) => statements.push(statement),
            None => statements,
        };
        lemma_parse_statements_ends(spec_advance(m1), extended, in_block, depth);
    }
}

/// Parsing a program reads the source text to its end, hands out every
/// diagnostic that was there or arose, and leaves none behind.
pub proof fn lemma_parse_program_ends(m: ParserModel)
    ensures
        spec_parse_program(m).0.current.token_type == TokenType::EOF,
        spec_parse_program(m).0.errors.len() == 0,
        spec_parse_program(m).0.lexer.input == m.lexer.input,
        m.errors.len() <= spec_parse_program(m).2.len(),
        forall|i: int| 0 <= i < m.errors.len() ==> spec_parse_program(m).2[i] == m.errors[i],
{
    lemma_parse_statements_ends(m, Seq::empty(), false, m.max_depth);
    lemma_parse_statements_forward(m, Seq::empty(), false, m.max_depth);
}

} // verus!
