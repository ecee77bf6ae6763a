//! The grammar, stated as functions on a mathematical model of the
//! parser's state.

use vstd::prelude::*;
use crate::ast::{
    BlockModel, ExpressionModel, FunctionModel, IdentifierModel, ProgramModel, StatementModel,
};
use crate::lexer::{lemma_next_token_progress, spec_next_token, LexerModel};
use crate::parser::error::{ParseErrorKind, ParseErrorModel};
use crate::parser::precedence::{spec_is_binary_operator, Precedence};
use crate::token::{TokenModel, TokenType};
use crate::utils::spec_parse_integer;

verus! {

/// The state of a parser: the tokenizer behind it, the current token and
/// the one after it with the positions where they start, the diagnostics
/// recorded so far, and the nesting limit.
pub struct ParserModel {
    pub lexer: LexerModel,
    pub current: TokenModel,
    pub peek: TokenModel,
    pub current_position: nat,
    pub peek_position: nat,
    pub errors: Seq<ParseErrorModel>,
    pub max_depth: nat,
}

impl ParserModel {
    /// An upper bound on the tokens other than `EOF` that lie behind the
    /// current one.
    pub open spec fn work(self) -> nat {
        (if self.lexer.position <= self.lexer.input.len() {
            self.lexer.input.len() - self.lexer.position
        } else {
            0
        }) as nat + if self.peek.token_type != TokenType::EOF {
            1nat
        } else {
            0nat
        }
    }

    /// The same bound with the current token counted in.
    pub open spec fn span(self) -> nat {
        self.work() + if self.current.token_type != TokenType::EOF {
            1nat
        } else {
            0nat
        }
    }

    /// The state with one more diagnostic.
    pub open spec fn record(self, error: ParseErrorModel) -> ParserModel {
        ParserModel {
            lexer: self.lexer,
            current: self.current,
            peek: self.peek,
            current_position: self.current_position,
            peek_position: self.peek_position,
            errors: self.errors.push(error),
            max_depth: self.max_depth,
        }
    }

    /// The state with no diagnostics.
    pub open spec fn without_errors(self) -> ParserModel {
        ParserModel {
            lexer: self.lexer,
            current: self.current,
            peek: self.peek,
            current_position: self.current_position,
            peek_position: self.peek_position,
            errors: Seq::empty(),
            max_depth: self.max_depth,
        }
    }
}

/// One token further: the token after the current one becomes the current
/// one, and the next token is read from the source text.
#[verifier::opaque]
pub open spec fn spec_advance(m: ParserModel) -> ParserModel {
    let lexed = spec_next_token(m.lexer.input, m.lexer.position);
    ParserModel {
        lexer: LexerModel { input: m.lexer.input, position: lexed.position },
        current: m.peek,
        peek: lexed.token,
        current_position: m.peek_position,
        peek_position: lexed.start,
        errors: m.errors,
        max_depth: m.max_depth,
    }
}

/// A fresh parser has read the first two tokens of the source text.
pub open spec fn spec_initial(lexer: LexerModel, max_depth: nat) -> ParserModel {
    let blank = TokenModel { token_type: TokenType::ILLEGAL, literal: Seq::empty() };
    spec_advance(
        spec_advance(
            ParserModel {
                lexer,
                current: blank,
                peek: blank,
                current_position: 0,
                peek_position: 0,
                errors: Seq::empty(),
                max_depth,
            },
        ),
    )
}

/// Advancing never adds work, and takes some away whenever a token other
/// than `EOF` moves into the current place.
pub proof fn lemma_advance(m: ParserModel)
    ensures
        spec_advance(m).work() <= m.work(),
        m.peek.token_type != TokenType::EOF ==> spec_advance(m).work() < m.work(),
        spec_advance(m).span() <= m.span(),
        m.current.token_type != TokenType::EOF ==> spec_advance(m).span() < m.span(),
        spec_advance(m).errors == m.errors,
        spec_advance(m).max_depth == m.max_depth,
        spec_advance(m).lexer.input == m.lexer.input,
{
    reveal(spec_advance);
    lemma_next_token_progress(m.lexer.input, m.lexer.position);
}

/// A diagnostic of the given kind at the current token.
pub open spec fn spec_error_at_current(m: ParserModel, kind: ParseErrorKind) -> ParseErrorModel {
    ParseErrorModel { kind, expected: None, actual: m.current, position: m.current_position }
}

/// Requires the next token to be of the given kind: moves onto it if it is,
/// and otherwise stays and reports the token that was found.
pub open spec fn spec_expect_peek(m: ParserModel, kind: TokenType) -> (
    ParserModel,
    Option<ParseErrorModel>,
) {
    if m.peek.token_type == kind {
        (spec_advance(m), None)
    } else {
        (
            m,
            Some(
                ParseErrorModel {
                    kind: ParseErrorKind::UnexpectedToken,
                    expected: Some(kind),
                    actual: m.peek,
                    position: m.peek_position,
                },
            ),
        )
    }
}

/// The identifier that a token spells.
pub open spec fn spec_identifier(token: TokenModel) -> IdentifierModel {
    IdentifierModel { token, value: token.literal }
}

/// Recovery after a failed statement: tokens are skipped until the current
/// one ends a statement (a semicolon or the end of the input) or the next
/// one closes a block.
pub open spec fn spec_synchronize(m: ParserModel) -> ParserModel
    decreases m.span(),
{
    if m.current.token_type == TokenType::SEMICOLON || m.current.token_type == TokenType::EOF
        || m.peek.token_type == TokenType::RBRACE {
        m
    } else {
        proof {
            lemma_advance(m);
        }
        spec_synchronize(spec_advance(m))
    }
}

/// The rest of a parameter list, after one parameter: a comma and an
/// identifier any number of times, then the closing parenthesis.
pub open spec fn spec_parameters_loop(m: ParserModel, parameters: Seq<IdentifierModel>) -> (
    ParserModel,
    Result<Seq<IdentifierModel>, ParseErrorModel>,
)
    decreases m.work(),
{
    if m.peek.token_type == TokenType::COMMA {
        let m1 = spec_advance(m);
        let (m2, error) = spec_expect_peek(m1, TokenType::IDENT);
        match error {
            Some(e) => (m2, Err(e)),
            None => {
                proof {
                    lemma_advance(m);
                    lemma_advance(m1);
                }
                spec_parameters_loop(m2, parameters.push(spec_identifier(m2.current)))
            },
        }
    } else {
        let (m1, error) = spec_expect_peek(m, TokenType::RPAREN);
        match error {
            Some(e) => (m1, Err(e)),
            None => (m1, Ok(parameters)),
        }
    }
}

/// The parameter list of a function literal, from its opening parenthesis:
/// identifiers separated by commas, up to the closing parenthesis.
pub open spec fn spec_parse_parameters(m: ParserModel) -> (
    ParserModel,
    Result<Seq<IdentifierModel>, ParseErrorModel>,
) {
    if m.peek.token_type == TokenType::RPAREN {
        (spec_advance(m), Ok(Seq::empty()))
    } else {
        let (m1, error) = spec_expect_peek(m, TokenType::IDENT);
        match error {
            Some(e) => (m1, Err(e)),
            None => spec_parameters_loop(m1, seq![spec_identifier(m1.current)]),
        }
    }
}

/// An expression whose operators all bind more strongly than `precedence`:
/// an operand, followed by every infix operator and call that binds more
/// strongly, each taking what was parsed so far as its left operand.
/// `depth` is how many more levels of nesting are allowed.
pub open spec fn spec_parse_expression(m: ParserModel, precedence: Precedence, depth: nat) -> (
    ParserModel,
    Result<ExpressionModel, ParseErrorModel>,
)
    decreases depth, 2nat, 0nat,
{
    if depth == 0 {
        (m, Err(spec_error_at_current(m, ParseErrorKind::NestingTooDeep)))
    } else {
        let d = (depth - 1) as nat;
        let (m1, operand) = spec_parse_prefix(m, d);
        match operand {
            Err(e) => (m1, Err(e)),
            Ok(left) => spec_infix_loop(m1, left, precedence, d),
        }
    }
}

/// The operators behind an operand: while the next token is no semicolon
/// and binds more strongly than `precedence`, it is applied to `left`.
/// Each round leaves less work than the one before; the test for it is
/// there to make the definition well founded, and never fails.
pub open spec fn spec_infix_loop(
    m: ParserModel,
    left: ExpressionModel,
    precedence: Precedence,
    depth: nat,
) -> (ParserModel, Result<ExpressionModel, ParseErrorModel>)
    decreases depth, 11nat, m.work(),
{
    if m.peek.token_type != TokenType::SEMICOLON && precedence.spec_rank()
        < Precedence::spec_from_token(m.peek.token_type).spec_rank() {
        let m1 = spec_advance(m);
        let (m2, applied) = spec_parse_infix(m1, left, depth);
        match applied {
            Err(e) => (m2, Err(e)),
            Ok(expression) => if m2.work() < m.work() {
                spec_infix_loop(m2, expression, precedence, depth)
            } else {
                (m2, Ok(expression))
            },
        }
    } else {
        (m, Ok(left))
    }
}

/// An operand, chosen by the current token: an identifier, an integer or
/// boolean literal, a prefix operator with its operand, an expression in
/// parentheses, an `if` expression or a function literal. Any other token
/// starts no expression.
pub open spec fn spec_parse_prefix(m: ParserModel, depth: nat) -> (
    ParserModel,
    Result<ExpressionModel, ParseErrorModel>,
)
    decreases depth, 10nat, 0nat,
{
    let token = m.current;
    let kind = token.token_type;
    if kind == TokenType::IDENT {
        (m, Ok(ExpressionModel::Identifier(spec_identifier(token))))
    } else if kind == TokenType::INT {
        match spec_parse_integer(token.literal) {
            Some(value) => (m, Ok(ExpressionModel::IntegerLiteral { token, value })),
            None => (m, Err(spec_error_at_current(m, ParseErrorKind::IntegerOutOfRange))),
        }
    } else if kind == TokenType::TRUE || kind == TokenType::FALSE {
        (m, Ok(ExpressionModel::Boolean { token, value: kind == TokenType::TRUE }))
    } else if kind == TokenType::BANG || kind == TokenType::MINUS {
        let (m1, operand) = spec_parse_expression(spec_advance(m), Precedence::PREFIX, depth);
        match operand {
            Err(e) => (m1, Err(e)),
            Ok(right) => (
                m1,
                Ok(ExpressionModel::Prefix { token, operator: token.literal, right: Box::new(right) }),
            ),
        }
    } else if kind == TokenType::LPAREN {
        let (m1, inner) = spec_parse_expression(spec_advance(m), Precedence::LOWEST, depth);
        match inner {
            Err(e) => (m1, Err(e)),
            Ok(expression) => {
                let (m2, error) = spec_expect_peek(m1, TokenType::RPAREN);
                match error {
                    Some(e) => (m2, Err(e)),
                    None => (m2, Ok(expression)),
                }
            },
        }
    } else if kind == TokenType::IF {
        let (m1, error1) = spec_expect_peek(m, TokenType::LPAREN);
        match error1 {
            Some(e) => (m1, Err(e)),
            None => {
                let (m2, parsed) = spec_parse_expression(
                    spec_advance(m1),
                    Precedence::LOWEST,
                    depth,
                );
                match parsed {
                    Err(e) => (m2, Err(e)),
                    Ok(condition) => {
                        let (m3, error3) = spec_expect_peek(m2, TokenType::RPAREN);
                        match error3 {
                            Some(e) => (m3, Err(e)),
                            None => {
                                let (m4, error4) = spec_expect_peek(m3, TokenType::LBRACE);
                                match error4 {
                                    Some(e) => (m4, Err(e)),
                                    None => {
                                        let (m5, consequence) = spec_parse_block(m4, depth);
                                        if m5.peek.token_type == TokenType::ELSE {
                                            let (m6, error6) = spec_expect_peek(
                                                spec_advance(m5),
                                                TokenType::LBRACE,
                                            );
                                            match error6 {
                                                Some(e) => (m6, Err(e)),
                                                None => {
                                                    let (m7, alternative) = spec_parse_block(
                                                        m6,
                                                        depth,
                                                    );
                                                    (
                                                        m7,
                                                        Ok(
                                                            ExpressionModel::If {
                                                                token,
                                                                condition: Box::new(condition),
                                                                consequence,
                                                                alternative: Some(alternative),
                                                            },
                                                        ),
                                                    )
                                                },
                                            }
                                        } else {
                                            (
                                                m5,
                                                Ok(
                                                    ExpressionModel::If {
                                                        token,
                                                        condition: Box::new(condition),
                                                        consequence,
                                                        alternative: None,
                                                    },
                                                ),
                                            )
                                        }
                                    },
                                }
                            },
                        }
                    },
                }
            },
        }
    } else if kind == TokenType::FUNCTION {
        let (m1, error1) = spec_expect_peek(m, TokenType::LPAREN);
        match error1 {
            Some(e) => (m1, Err(e)),
            None => {
                let (m2, parsed) = spec_parse_parameters(m1);
                match parsed {
                    Err(e) => (m2, Err(e)),
                    Ok(parameters) => {
                        let (m3, error3) = spec_expect_peek(m2, TokenType::LBRACE);
                        match error3 {
                            Some(e) => (m3, Err(e)),
                            None => {
                                let (m4, body) = spec_parse_block(m3, depth);
                                (
                                    m4,
                                    Ok(
                                        ExpressionModel::Function(
                                            FunctionModel { token, parameters, body },
                                        ),
                                    ),
                                )
                            },
                        }
                    },
                }
            },
        }
    } else {
        (m, Err(spec_error_at_current(m, ParseErrorKind::NoPrefixHandler)))
    }
}

/// The current token applied to `left`: a binary operator takes the
/// expression behind it that binds more strongly than itself as its right
/// operand, so operators of the same strength group to the left; an opening
/// parenthesis makes a call of `left` with the arguments up to the closing
/// one. Any other token leaves `left` as it is.
pub open spec fn spec_parse_infix(m: ParserModel, left: ExpressionModel, depth: nat) -> (
    ParserModel,
    Result<ExpressionModel, ParseErrorModel>,
)
    decreases depth, 10nat, 0nat,
{
    let token = m.current;
    let kind = token.token_type;
    if spec_is_binary_operator(kind) {
        let (m1, operand) = spec_parse_expression(
            spec_advance(m),
            Precedence::spec_from_token(kind),
            depth,
        );
        match operand {
            Err(e) => (m1, Err(e)),
            Ok(right) => (
                m1,
                Ok(
                    ExpressionModel::Infix {
                        token,
                        operator: token.literal,
                        left: Box::new(left),
                        right: Box::new(right),
                    },
                ),
            ),
        }
    } else if kind == TokenType::LPAREN {
        let (m1, parsed) = spec_parse_arguments(m, depth);
        match parsed {
            Err(e) => (m1, Err(e)),
            Ok(arguments) => (
                m1,
                Ok(ExpressionModel::Call { token, function: Box::new(left), arguments }),
            ),
        }
    } else {
        (m, Ok(left))
    }
}

/// The argument list of a call, from its opening parenthesis: expressions
/// separated by commas, up to the closing parenthesis.
pub open spec fn spec_parse_arguments(m: ParserModel, depth: nat) -> (
    ParserModel,
    Result<Seq<ExpressionModel>, ParseErrorModel>,
)
    decreases depth, 9nat, 0nat,
{
    if m.peek.token_type == TokenType::RPAREN {
        (spec_advance(m), Ok(Seq::empty()))
    } else {
        let (m1, first) = spec_parse_expression(spec_advance(m), Precedence::LOWEST, depth);
        match first {
            Err(e) => (m1, Err(e)),
            Ok(argument) => spec_arguments_loop(m1, seq![argument], depth),
        }
    }
}

/// The rest of an argument list, after one argument: a comma and an
/// expression any number of times, then the closing parenthesis. The test
/// for less work is there to make the definition well founded, and never
/// fails.
pub open spec fn spec_arguments_loop(m: ParserModel, arguments: Seq<ExpressionModel>, depth: nat)
    -> (ParserModel, Result<Seq<ExpressionModel>, ParseErrorModel>)
    decreases depth, 8nat, m.work(),
{
    if m.peek.token_type == TokenType::COMMA {
        let (m1, parsed) = spec_parse_expression(
            spec_advance(spec_advance(m)),
            Precedence::LOWEST,
            depth,
        );
        match parsed {
            Err(e) => (m1, Err(e)),
            Ok(argument) => if m1.work() < m.work() {
                spec_arguments_loop(m1, arguments.push(argument), depth)
            } else {
                (m1, Ok(arguments.push(argument)))
            },
        }
    } else {
        let (m1, error) = spec_expect_peek(m, TokenType::RPAREN);
        match error {
            Some(e) => (m1, Err(e)),
            None => (m1, Ok(arguments)),
        }
    }
}

/// A block, from its opening brace: the statements up to the closing brace
/// or the end of the input.
pub open spec fn spec_parse_block(m: ParserModel, depth: nat) -> (ParserModel, BlockModel)
    decreases depth, 7nat, 0nat,
{
    let (m1, statements) = spec_parse_statements(spec_advance(m), Seq::empty(), true, depth);
    (m1, BlockModel { token: m.current, statements })
}

/// Statements one after the other, up to the end of the input or, inside a
/// block, up to the closing brace. A statement that fails is left out.
/// The test for a shorter span is there to make the definition well
/// founded, and never fails.
pub open spec fn spec_parse_statements(
    m: ParserModel,
    statements: Seq<StatementModel>,
    in_block: bool,
    depth: nat,
) -> (ParserModel, Seq<StatementModel>)
    decreases depth, 6nat, m.span(),
{
    if m.current.token_type == TokenType::EOF || (in_block && m.current.token_type
        == TokenType::RBRACE) {
        (m, statements)
    } else {
        let (m1, parsed) = spec_parse_statement(m, depth);
        let extended = match parsed {
            Some(statement) => statements.push(statement),
            None => statements,
        };
        let m2 = spec_advance(m1);
        if m2.span() < m.span() {
            spec_parse_statements(m2, extended, in_block, depth)
        } else {
            (m2, extended)
        }
    }
}

/// One statement, ending on its last token. Where the statement fails, the
/// diagnostic is recorded, the tokens up to the next statement boundary
/// are skipped, and there is no statement.
pub open spec fn spec_parse_statement(m: ParserModel, depth: nat) -> (
    ParserModel,
    Option<StatementModel>,
)
    decreases depth, 5nat, 0nat,
{
    let (m1, parsed) = spec_parse_statement_strict(m, depth);
    match parsed {
        Ok(statement) => (m1, Some(statement)),
        Err(e) => (spec_synchronize(m1).record(e), None),
    }
}

/// One statement, or the reason why there is none:
/// `let` with a name, `=`, an expression and a semicolon; `return` with an
/// expression and a semicolon; or an expression, with a semicolon behind it
/// or without.
pub open spec fn spec_parse_statement_strict(m: ParserModel, depth: nat) -> (
    ParserModel,
    Result<StatementModel, ParseErrorModel>,
)
    decreases depth, 4nat, 0nat,
{
    let token = m.current;
    if token.token_type == TokenType::LET {
        let (m1, error1) = spec_expect_peek(m, TokenType::IDENT);
        match error1 {
            Some(e) => (m1, Err(e)),
            None => {
                let name = spec_identifier(m1.current);
                let (m2, error2) = spec_expect_peek(m1, TokenType::ASSIGN);
                match error2 {
                    Some(e) => (m2, Err(e)),
                    None => {
                        let (m3, parsed) = spec_parse_expression(
                            spec_advance(m2),
                            Precedence::LOWEST,
                            depth,
                        );
                        match parsed {
                            Err(e) => (m3, Err(e)),
                            Ok(value) => {
                                let (m4, error4) = spec_expect_peek(m3, TokenType::SEMICOLON);
                                match error4 {
                                    Some(e) => (m4, Err(e)),
                                    None => (m4, Ok(StatementModel::Let { token, name, value })),
                                }
                            },
                        }
                    },
                }
            },
        }
    } else if token.token_type == TokenType::RETURN {
        let (m1, parsed) = spec_parse_expression(spec_advance(m), Precedence::LOWEST, depth);
        match parsed {
            Err(e) => (m1, Err(e)),
            Ok(value) => {
                let (m2, error2) = spec_expect_peek(m1, TokenType::SEMICOLON);
                match error2 {
                    Some(e) => (m2, Err(e)),
                    None => (m2, Ok(StatementModel::Return { token, value })),
                }
            },
        }
    } else {
        let (m1, parsed) = spec_parse_expression(m, Precedence::LOWEST, depth);
        match parsed {
            Err(e) => (m1, Err(e)),
            Ok(value) => (
                if m1.peek.token_type == TokenType::SEMICOLON {
                    spec_advance(m1)
                } else {
                    m1
                },
                Ok(StatementModel::Expression { token, value }),
            ),
        }
    }
}

/// A whole program: the statements up to the end of the input, together
/// with the diagnostics in the order in which they arose.
pub open spec fn spec_parse_program(m: ParserModel) -> (
    ParserModel,
    ProgramModel,
    Seq<ParseErrorModel>,
) {
    let (m1, statements) = spec_parse_statements(m, Seq::empty(), false, m.max_depth);
    (m1.without_errors(), ProgramModel { statements }, m1.errors)
}


/// What parsing a source text from its start gives: the program and the
/// diagnostics.
pub open spec fn spec_parse_source(input: Seq<char>, max_depth: nat) -> (
    ProgramModel,
    Seq<ParseErrorModel>,
) {
    let parsed = spec_parse_program(spec_initial(LexerModel { input, position: 0 }, max_depth));
    (parsed.1, parsed.2)
}

/// Whether `program` and `errors` are an outcome of parsing `input`.
pub open spec fn spec_is_parse_of(
    input: Seq<char>,
    max_depth: nat,
    program: ProgramModel,
    errors: Seq<ParseErrorModel>,
) -> bool {
    (program, errors) == spec_parse_source(input, max_depth)
}

/// Parsing is deterministic: any two outcomes of parsing the same source
/// text with the same nesting limit are the same program and the same
/// diagnostics.
pub proof fn lemma_parse_is_deterministic(
    input: Seq<char>,
    max_depth: nat,
    program1: ProgramModel,
    errors1: Seq<ParseErrorModel>,
    program2: ProgramModel,
    errors2: Seq<ParseErrorModel>,
)
    requires
        spec_is_parse_of(input, max_depth, program1, errors1),
        spec_is_parse_of(input, max_depth, program2, errors2),
    ensures
        program1 == program2,
        errors1 == errors2,
{
}

} // verus!
