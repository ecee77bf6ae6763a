use lolo::ast::{Expression, IntegerLiteral, Node, PrefixExpression, Program, Statements, AST};
use lolo::environment::Environment;
use lolo::evaluator::{
    eval, eval_ast, eval_bang_operator, eval_integer_infix_expression, eval_minus_prefix,
    eval_prefix_expression, RuntimeError,
};
use lolo::lexer::Lexer;
use lolo::object::{Object, ObjectType};
use lolo::utils::{decimal_string, integer_string, parse_integer};
use lolo::parser::{parse as parse_source, Parser};
use lolo::token::{Token, TokenType};

fn parse(input: &str) -> &'static Program {
    let mut parser = Parser::new(Lexer::new(input));
    let (program, errors) = parser.parse_program();
    assert!(errors.is_empty(), "{:?}", errors);
    Box::leak(Box::new(program))
}

fn run(input: &str) -> Result<Object<'static>, RuntimeError> {
    let mut env = Environment::new();
    eval(parse(input), &mut env)
}

fn integer(input: &str) -> i64 {
    match run(input) {
        Ok(Object { object_type: ObjectType::Integer(i) }) => i,
        other => panic!("{}: {:?}", input, other),
    }
}

fn boolean(input: &str) -> bool {
    match run(input) {
        Ok(Object { object_type: ObjectType::Boolean(b) }) => b,
        other => panic!("{}: {:?}", input, other),
    }
}

fn is_null(input: &str) -> bool {
    matches!(run(input), Ok(Object { object_type: ObjectType::Null }))
}

fn error(input: &str) -> RuntimeError {
    match run(input) {
        Err(e) => e,
        other => panic!("{}: {:?}", input, other),
    }
}

#[test]
fn arithmetic() {
    assert_eq!(integer("5 * (10 + 10)"), 100);
    assert_eq!(integer("10 - 10"), 0);
    assert_eq!(integer("5 * 10 + 10"), 60);
    assert_eq!(integer("2 * 2 * 2 * 2 * 2"), 32);
    assert_eq!(integer("50 / 2 * 2 + 10"), 60);
    assert_eq!(integer("3 * (3 * 3) + 10"), 37);
    assert_eq!(integer("(5 + 10 * 2 + 15 / 3) * 2 + -10"), 50);
    assert_eq!(integer("--5"), 5);
}

#[test]
fn division_rounds_towards_zero() {
    assert_eq!(integer("7 / 2"), 3);
    assert_eq!(integer("-7 / 2"), -3);
    assert_eq!(integer("7 / -2"), -3);
    assert_eq!(integer("-7 / -2"), 3);
    assert_eq!(integer("0 / 5"), 0);
    assert_eq!(integer("1 / 9223372036854775807"), 0);
}

#[test]
fn booleans_and_comparisons() {
    assert!(boolean("1 < 2"));
    assert!(boolean("!!5"));
    assert!(!boolean("!5"));
    assert!(!boolean("!0"));
    assert!(boolean("(1 < 2) == true"));
    assert!(boolean("(1 > 2) == false"));
    assert!(boolean("(1 < 2) != (2 < 1)"));
    assert!(boolean("!(if (false) { 1 })"));
    assert!(!boolean("!fn(x) { x }"));
}

#[test]
fn conditionals() {
    assert!(is_null("if (false) { 10 }"));
    assert_eq!(integer("if (1 > 2) { 10 } else { 20 }"), 20);
    assert_eq!(integer("if (0) { 10 } else { 20 }"), 10);
    assert!(is_null("if (true) { }"));
    assert_eq!(integer("if (if (false) { 1 }) { 10 } else { 20 }"), 20);
}

#[test]
fn closures_keep_their_scope() {
    assert_eq!(integer("let add = fn(x, y) { x + y }; add(2, 3);"), 5);
    assert_eq!(
        integer("let makeAdder = fn(x) { fn(y) { x + y } }; let addTwo = makeAdder(2); addTwo(3);"),
        5
    );
    assert_eq!(
        integer(
            "let makeAdder = fn(x) { fn(y) { x + y } };
             let addTwo = makeAdder(2); let addTen = makeAdder(10);
             addTwo(1) * 100 + addTen(1)"
        ),
        311
    );
    assert_eq!(integer("fn(x) { x * 2 }(21)"), 42);
    assert_eq!(integer("let apply = fn(f, x) { f(f(x)) }; apply(fn(n) { n + 3 }, 1)"), 7);
}

#[test]
fn function_sees_the_scope_of_its_definition_not_of_its_call() {
    assert_eq!(
        integer("let x = 1; let f = fn() { x }; let g = fn() { let x = 2; f() }; g()"),
        1
    );
    assert_eq!(integer("let f = fn() { y }; let y = 7; f()"), 7);
}

#[test]
fn let_shadows_and_never_changes_an_outer_binding() {
    assert_eq!(integer("let x = 1; let f = fn() { let x = 2; x }; f() * 10 + x"), 21);
    assert_eq!(integer("let x = 1; let x = x + 1; x"), 2);
    assert_eq!(integer("let x = 5; let f = fn(x) { let x = x * 2; x }; f(1) + x"), 7);
    assert_eq!(integer("let x = 1; if (true) { let x = 2; } x"), 2);
}

#[test]
fn parameters_bind_by_position() {
    assert_eq!(integer("let f = fn(a, b, c) { a * 100 + b * 10 + c }; f(1, 2, 3)"), 123);
    assert_eq!(integer("let f = fn(a, a) { a }; f(1, 2)"), 2);
}

#[test]
fn arguments_are_evaluated_in_the_scope_of_the_caller() {
    assert_eq!(integer("let x = 3; let f = fn(y) { let x = 100; y }; f(x + 1)"), 4);
}

#[test]
fn let_gives_no_value() {
    assert!(is_null("let x = 5;"));
    assert!(is_null(""));
    assert!(is_null("fn() { let x = 1; }()"));
}

#[test]
fn return_leaves_nested_blocks() {
    assert_eq!(integer("return 10;"), 10);
    assert_eq!(integer("return 10; 9;"), 10);
    assert_eq!(integer("9; return 2 * 5; 9;"), 10);
    assert_eq!(integer("if (10 > 1) { if (10 > 1) { return 10; } return 1; }"), 10);
    assert_eq!(
        integer("let f = fn(x) { if (x) { if (x) { return 1; } return 2; } return 3; }; f(true) * 10 + f(false)"),
        13
    );
    assert_eq!(integer("let f = fn() { return 1; 2 }; f() + 10"), 11);
}

#[test]
fn return_inside_an_operand_ends_the_function() {
    assert_eq!(integer("let f = fn() { 1 + if (true) { return 5; }; 9 }; f()"), 5);
    assert_eq!(integer("let f = fn() { let x = if (true) { return 6; }; 9 }; f()"), 6);
    assert_eq!(integer("let g = fn(a) { a }; let f = fn() { g(if (true) { return 7; }); 9 }; f()"), 7);
    assert_eq!(integer("let f = fn() { return if (true) { return 8; }; }; f()"), 8);
    assert_eq!(integer("let f = fn() { -if (true) { return 3; } }; f()"), 3);
}

#[test]
fn recursion() {
    assert_eq!(
        integer("let fib = fn(n) { if (n < 2) { n } else { fib(n - 1) + fib(n - 2) } }; fib(15)"),
        610
    );
    assert_eq!(
        integer("let fact = fn(n) { if (n < 1) { return 1; } n * fact(n - 1) }; fact(20)"),
        2432902008176640000
    );
}

#[test]
fn unknown_identifier_is_an_error() {
    assert_eq!(error("foobar"), RuntimeError::IdentifierNotFound("foobar".to_string()));
    assert_eq!(error("foobar").message(), "identifier not found: foobar");
    assert_eq!(error("let f = fn() { let inner = 1; }; f(); inner").message(), "identifier not found: inner");
}

#[test]
fn calling_what_is_no_function_is_an_error() {
    assert_eq!(error("5(1)"), RuntimeError::NotAFunction);
    assert_eq!(error("5(1)").message(), "not a function");
    assert_eq!(error("true()"), RuntimeError::NotAFunction);
    assert_eq!(error("let x = if (false) { 1 }; x()"), RuntimeError::NotAFunction);
    assert_eq!(error("5(missing)"), RuntimeError::NotAFunction);
}

#[test]
fn wrong_number_of_arguments_is_an_error() {
    assert_eq!(
        error("let f = fn(x, y) { x }; f(1)"),
        RuntimeError::WrongArgumentCount { expected: 2, actual: 1 }
    );
    assert_eq!(
        error("fn() { 1 }(1, 2, 3)").message(),
        "wrong number of arguments: expected 0, got 3"
    );
}

#[test]
fn type_mismatch_is_an_error() {
    assert_eq!(error("1 + true"), RuntimeError::TypeMismatch);
    assert_eq!(error("true + false"), RuntimeError::TypeMismatch);
    assert_eq!(error("true < false"), RuntimeError::TypeMismatch);
    assert_eq!(error("1 == true"), RuntimeError::TypeMismatch);
    assert_eq!(error("-true"), RuntimeError::TypeMismatch);
    assert_eq!(error("-fn() { 1 }"), RuntimeError::TypeMismatch);
    assert_eq!(error("fn() { 1 } == fn() { 1 }"), RuntimeError::TypeMismatch);
    assert_eq!(error("(if (false) { 1 }) + 1"), RuntimeError::TypeMismatch);
    assert_eq!(error("1 + true").message(), "type mismatch");
}

#[test]
fn division_by_zero_is_an_error() {
    assert_eq!(error("1 / 0"), RuntimeError::DivisionByZero);
    assert_eq!(error("0 / 0"), RuntimeError::DivisionByZero);
    assert_eq!(error("1 / (2 - 2)").message(), "division by zero");
}

#[test]
fn overflow_is_an_error() {
    assert_eq!(error("9223372036854775807 + 1"), RuntimeError::IntegerOverflow);
    assert_eq!(error("-9223372036854775807 - 2"), RuntimeError::IntegerOverflow);
    assert_eq!(error("4611686018427387904 * 2"), RuntimeError::IntegerOverflow);
    assert_eq!(error("(-9223372036854775807 - 1) / -1"), RuntimeError::IntegerOverflow);
    assert_eq!(error("-(-9223372036854775807 - 1)"), RuntimeError::IntegerOverflow);
    assert_eq!(integer("-9223372036854775807 - 1"), i64::MIN);
    assert_eq!(integer("9223372036854775806 + 1"), i64::MAX);
    assert_eq!(error("1 + 9223372036854775807").message(), "integer overflow");
}

#[test]
fn first_error_ends_everything() {
    assert_eq!(error("let x = 1; missing; let y = 1 / 0;").message(), "identifier not found: missing");
    assert_eq!(error("let f = fn() { 1 / 0; 5 }; f(); other"), RuntimeError::DivisionByZero);
    assert_eq!(error("(1 / 0) + missing"), RuntimeError::DivisionByZero);
    assert_eq!(error("missing + (1 / 0)").message(), "identifier not found: missing");
    assert_eq!(error("let f = fn(a, b) { a }; f(1 / 0, missing)"), RuntimeError::DivisionByZero);
    assert_eq!(error("if (1 / 0) { 1 }"), RuntimeError::DivisionByZero);
}

#[test]
fn runaway_recursion_is_an_error() {
    assert_eq!(error("let f = fn(x) { f(x + 1) }; f(0)"), RuntimeError::NestingTooDeep);
    assert_eq!(error("let f = fn(x) { f(x + 1) }; f(0)").message(), "evaluation nested too deep");
}

#[test]
fn nesting_limit_is_exact() {
    let program = parse("1 + 2");
    let mut env = Environment::with_max_depth(2);
    assert_eq!(eval(program, &mut env).unwrap().object_type, ObjectType::Integer(3));
    let mut env = Environment::with_max_depth(1);
    assert_eq!(eval(program, &mut env), Err(RuntimeError::NestingTooDeep));
    let mut env = Environment::with_max_depth(0);
    assert_eq!(eval(program, &mut env), Err(RuntimeError::NestingTooDeep));
    let empty = parse("");
    let mut env = Environment::with_max_depth(0);
    assert_eq!(eval(empty, &mut env).unwrap().object_type, ObjectType::Null);

    let call = parse("let f = fn() { 1 }; f()");
    let mut env = Environment::with_max_depth(2);
    assert_eq!(eval(call, &mut env).unwrap().object_type, ObjectType::Integer(1));
    let mut env = Environment::with_max_depth(1);
    assert_eq!(eval(call, &mut env), Err(RuntimeError::NestingTooDeep));
}

#[test]
fn scope_survives_between_programs() {
    let mut env = Environment::new();
    let first = parse("let counter = fn(n) { fn() { n + 1 } }; let next = counter(41);");
    let second = parse("next()");
    assert_eq!(eval(first, &mut env).unwrap().object_type, ObjectType::Null);
    assert_eq!(eval(second, &mut env).unwrap().object_type, ObjectType::Integer(42));
    assert_eq!(env.current(), 0);
}

#[test]
fn failed_call_leaves_the_callers_scope_in_use() {
    let mut env = Environment::new();
    let first = parse("let x = 1; let f = fn() { let x = 2; missing }; f()");
    assert!(eval(first, &mut env).is_err());
    assert_eq!(env.current(), 0);
    let second = parse("x");
    assert_eq!(eval(second, &mut env).unwrap().object_type, ObjectType::Integer(1));
}

#[test]
fn evaluating_twice_gives_the_same_value() {
    let program = parse("let f = fn(n) { if (n < 1) { 0 } else { n + f(n - 1) } }; f(10) / 0");
    let mut e1 = Environment::new();
    let mut e2 = Environment::new();
    assert_eq!(eval(program, &mut e1), eval(program, &mut e2));
    let program = parse("let f = fn(n) { if (n < 1) { 0 } else { n + f(n - 1) } }; f(10)");
    let mut e1 = Environment::new();
    let mut e2 = Environment::new();
    let r1 = eval(program, &mut e1);
    assert_eq!(r1, eval(program, &mut e2));
    assert_eq!(r1.unwrap().object_type, ObjectType::Integer(55));
}

#[test]
fn operators_on_values() {
    assert_eq!(eval_bang_operator(&Object::from_bool(true)).object_type, ObjectType::Boolean(false));
    assert_eq!(eval_bang_operator(&Object::null()).object_type, ObjectType::Boolean(true));
    assert_eq!(eval_bang_operator(&Object::from_int(0)).object_type, ObjectType::Boolean(false));
    assert_eq!(eval_minus_prefix(&Object::from_int(5)).unwrap().object_type, ObjectType::Integer(-5));
    assert_eq!(eval_minus_prefix(&Object::from_int(i64::MIN)), Err(RuntimeError::IntegerOverflow));
    assert_eq!(eval_minus_prefix(&Object::null()), Err(RuntimeError::TypeMismatch));
    assert_eq!(
        eval_integer_infix_expression("-", 3, 5).unwrap().object_type,
        ObjectType::Integer(-2)
    );
    assert_eq!(
        eval_integer_infix_expression("!=", 3, 5).unwrap().object_type,
        ObjectType::Boolean(true)
    );
    assert_eq!(eval_integer_infix_expression("!", 3, 5), Err(RuntimeError::TypeMismatch));
    assert_eq!(eval_integer_infix_expression("%", 3, 5), Err(RuntimeError::TypeMismatch));
}

#[test]
fn unknown_prefix_operator_is_an_error() {
    let node = PrefixExpression {
        token: Token::new(TokenType::PLUS, "+"),
        operator: "+".to_string(),
        right: Box::new(Expression::IntegerLiteral(IntegerLiteral {
            token: Token::new(TokenType::INT, "1"),
            value: 1,
        })),
    };
    let node: &'static PrefixExpression = Box::leak(Box::new(node));
    let mut env = Environment::new();
    let r = eval_prefix_expression(node, &mut env, 10);
    assert_eq!(r, Err(RuntimeError::UnknownOperator("+".to_string())));
    assert_eq!(r.unwrap_err().message(), "unknown operator: +");
}

#[test]
fn values_as_text() {
    assert_eq!(run("42").unwrap().inspect(), "42");
    assert_eq!(run("-42").unwrap().inspect(), "-42");
    assert_eq!(run("0").unwrap().inspect(), "0");
    assert_eq!(run("true").unwrap().inspect(), "true");
    assert_eq!(run("false").unwrap().inspect(), "false");
    assert_eq!(run("if (false) { 1 }").unwrap().inspect(), "null");
    assert_eq!(run("fn(x, y) { x + y }").unwrap().inspect(), "fn(x,y,) (x + y)");
    assert_eq!(RuntimeError::NotAFunction.to_object().inspect(), "ERROR: not a function");
    assert_eq!(RuntimeError::UnknownScope.message(), "unknown scope");
    let wrapped = Object { object_type: ObjectType::ReturnSignal(Box::new(Object::from_int(7))) };
    assert_eq!(wrapped.inspect(), "7");
}

#[test]
fn integers_in_decimal_notation() {
    assert_eq!(integer_string(0), "0");
    assert_eq!(integer_string(7), "7");
    assert_eq!(integer_string(10), "10");
    assert_eq!(integer_string(-1), "-1");
    assert_eq!(integer_string(1234567890), "1234567890");
    assert_eq!(integer_string(i64::MAX), "9223372036854775807");
    assert_eq!(integer_string(i64::MIN), "-9223372036854775808");
}

#[test]
fn value_accessors() {
    let five = Object::from_int(5);
    assert!(five.is_int() && !five.is_bool() && five.is_truthy() && !five.is_return_signal());
    assert_eq!(five.integer_value(), 5);
    let no = Object::from_bool(false);
    assert!(!no.is_int() && no.is_bool() && !no.is_truthy());
    assert_eq!(no.boolean_value(), false);
    assert!(Object::from_bool(true).boolean_value());
    assert!(!Object::null().is_truthy());
    assert!(Object::from_int(0).is_truthy());
    assert_eq!(five.duplicate(), five);
    let signal = Object { object_type: ObjectType::ReturnSignal(Box::new(Object::from_int(1))) };
    assert!(signal.is_return_signal() && signal.is_truthy());
    assert_eq!(signal.duplicate(), signal);
}

#[test]
fn any_node_can_be_evaluated() {
    let program = parse("let x = 20; x + 1; return x * 2; if (x) { return 3; 4 }");
    let mut env = Environment::new();
    assert_eq!(eval(&program.statements[0], &mut env).unwrap().object_type, ObjectType::Null);
    assert_eq!(eval(&program.statements[1], &mut env).unwrap().object_type, ObjectType::Integer(21));
    assert_eq!(eval(&program.statements[2], &mut env).unwrap().object_type, ObjectType::Integer(40));
    let expression = match &program.statements[3] {
        Statements::ExpressionStatement(x) => &x.expression,
        _ => panic!(),
    };
    assert_eq!(eval(expression, &mut env).unwrap().object_type, ObjectType::Integer(3));
    let block = match expression {
        Expression::IfExpression(x) => &x.consequence,
        _ => panic!(),
    };
    assert_eq!(eval(block, &mut env).unwrap().object_type, ObjectType::Integer(3));
    let name = match &program.statements[0] {
        Statements::LetStatement(x) => &x.name,
        _ => panic!(),
    };
    assert_eq!(eval(name, &mut env).unwrap().object_type, ObjectType::Integer(20));
    assert_eq!(eval_ast(name.to_ast(), &mut env).unwrap().object_type, ObjectType::Integer(20));
    assert_eq!(eval_ast(AST::Program(program), &mut env).unwrap().object_type, ObjectType::Integer(40));
    let literal = IntegerLiteral { token: Token::new(TokenType::INT, "9"), value: 9 };
    let literal: &'static IntegerLiteral = Box::leak(Box::new(literal));
    assert_eq!(eval(literal, &mut env).unwrap().object_type, ObjectType::Integer(9));
    let mut shallow = Environment::with_max_depth(0);
    assert_eq!(eval(literal, &mut shallow), Err(RuntimeError::NestingTooDeep));
    assert_eq!(eval(name, &mut shallow), Err(RuntimeError::NestingTooDeep));
}

#[test]
fn nodes_as_nodes_of_any_kind() {
    let program = parse("7");
    assert_eq!(program.to_ast(), AST::Program(program));
    assert_eq!(program.statements[0].to_ast(), AST::Statement(&program.statements[0]));
    match &program.statements[0] {
        Statements::ExpressionStatement(x) => {
            assert_eq!(x.expression.to_ast(), AST::Expression(&x.expression));
            match &x.expression {
                Expression::IntegerLiteral(i) => {
                    assert_eq!(i.to_ast(), AST::IntegerLiteral(i));
                    assert_eq!(i.token_literal(), "7");
                },
                _ => panic!(),
            }
        },
        _ => panic!(),
    }
}

#[test]
fn parse_from_text() {
    let (program, errors) = parse_source("let x = 1; x + ");
    assert_eq!(program.to_string(), "let x = 1;");
    assert_eq!(errors.len(), 1);
    let (again, errors_again) = parse_source("let x = 1; x + ");
    assert_eq!(program, again);
    assert_eq!(errors, errors_again);
}

#[test]
fn function_of_an_unknown_scope_cannot_be_called() {
    let definition = parse("fn(x) { x }");
    let literal = match &definition.statements[0] {
        Statements::ExpressionStatement(x) => match &x.expression {
            Expression::FunctionLiteral(f) => f,
            _ => panic!(),
        },
        _ => panic!(),
    };
    let mut env = Environment::new();
    env.set("f", Object { object_type: ObjectType::Function { literal, environment: 99 } });
    let call = parse("f(1)");
    assert_eq!(eval(call, &mut env), Err(RuntimeError::UnknownScope));
    assert_eq!(env.current(), 0);
    env.set("g", Object { object_type: ObjectType::Function { literal, environment: 0 } });
    let call = parse("g(1)");
    assert_eq!(eval(call, &mut env).unwrap().object_type, ObjectType::Integer(1));
}

#[test]
fn copies_are_equal() {
    let program = parse("let f = fn(a, b) { if (a) { return b; } else { -a + f(b, 1) } }; f(1, 2)");
    assert_eq!(&program.clone(), program);
    assert_eq!(program.statements[0].clone(), program.statements[0]);
    assert_eq!(program.duplicate().to_string(), program.to_string());
    let e = RuntimeError::IdentifierNotFound("x".to_string());
    assert_eq!(e.clone(), e);
    let e = RuntimeError::WrongArgumentCount { expected: 1, actual: 2 };
    assert_eq!(e.duplicate(), e);
    let value = Object::from_int(3);
    assert_eq!(value.clone(), value);
}

#[test]
fn written_integers_read_back() {
    for n in [0i64, 1, 9, 10, 99, 100, 12345, i64::MAX] {
        assert_eq!(parse_integer(&integer_string(n)), Some(n));
    }
    assert_eq!(decimal_string(u64::MAX), "18446744073709551615");
    assert_eq!(parse_integer(&decimal_string(u64::MAX)), None);
}
