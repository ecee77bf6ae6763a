//! The walk over the syntax tree: each function does what the function of
//! the same name on the models says.

use vstd::prelude::*;
use crate::ast::{
    lemma_call_model, lemma_function_model, lemma_if_model, statements_model, expressions_model,
    CallExpression, Expression, FunctionLiteral, IfExpression, InfixExpression, Node,
    PrefixExpression, Statements, AST,
};
use crate::environment::Environment;
use crate::evaluator::error::{object_result_model, RuntimeError, RuntimeErrorModel};
use crate::evaluator::model::{
    lemma_enter_kept, lemma_lookup_clean, lemma_new_enclosed_kept, lemma_set_kept,
    spec_apply_function, spec_bind_parameters, spec_clean, spec_eval_arguments,
    spec_eval_expression, spec_eval_node, spec_eval_statement, spec_is_value_of,
    spec_eval_statements, spec_flat, spec_kept, spec_settled, spec_unwrap_return,
};
use crate::evaluator::operators::{apply_infix, apply_prefix};
use crate::object::{lemma_objects_model_push, objects_model, Object, ObjectModel, ObjectType};

verus! {

/// The model of the outcome of evaluating the arguments of a call.
pub open spec fn arguments_result_model<'a>(
    r: Result<Vec<Object<'a>>, Result<Object<'a>, RuntimeError>>,
) -> Result<Seq<ObjectModel>, Result<ObjectModel, RuntimeErrorModel>> {
    match r {
        Ok(values) => Ok(objects_model(values@)),
        Err(early) => Err(object_result_model(early)),
    }
}

fn unwrap_return<'a>(object: Object<'a>) -> (r: Object<'a>)
    ensures
        r@ == spec_unwrap_return(object@),
{
    match object.object_type {
        ObjectType::ReturnSignal(inner) => *inner,
        other => Object { object_type: other },
    }
}

/// Evaluates a node in the scope in use. A `return` ends the evaluation
/// with its value; the first error ends it with that error.
pub fn eval<'a, N: Node>(node: &'a N, env: &mut Environment<'a>) -> (r: Result<
    Object<'a>,
    RuntimeError,
>)
    requires
        old(env).wf(),
    ensures
        final(env).wf(),
        spec_kept(old(env)@, final(env)@),
        spec_clean(old(env)@) ==> (r matches Ok(object) ==> !(object@ is ReturnSignal)),
        spec_is_value_of(node.spec_ast(), old(env)@, final(env)@, object_result_model(r)),
{
    eval_ast(node.to_ast(), env)
}

/// Evaluates a node of any kind in the scope in use.
pub fn eval_ast<'a>(node: AST<'a>, env: &mut Environment<'a>) -> (r: Result<
    Object<'a>,
    RuntimeError,
>)
    requires
        old(env).wf(),
    ensures
        final(env).wf(),
        spec_kept(old(env)@, final(env)@),
        spec_clean(old(env)@) ==> (r matches Ok(object) ==> !(object@ is ReturnSignal)),
        spec_is_value_of(node@, old(env)@, final(env)@, object_result_model(r)),
{
    proof {
        env.lemma_wf();
    }
    let depth: usize = env.max_depth();
    let outcome: Result<Object<'a>, RuntimeError> = match node {
        AST::Program(program) => eval_statements(&program.statements, env, depth),
        AST::BlockStatement(block) => eval_statements(&block.statements, env, depth),
        AST::Statement(statement) => eval_statement(statement, env, depth),
        AST::Expression(expression) => eval_expression(expression, env, depth),
        AST::Identifier(identifier) => {
            proof {
                if spec_clean(env@) {
                    lemma_lookup_clean(env@, env@.current, identifier.value@);
                }
            }
            if depth == 0 {
                Err(RuntimeError::NestingTooDeep)
            } else {
                match env.get(identifier.value.as_str()) {
                    Some(value) => Ok(value),
                    None => Err(RuntimeError::IdentifierNotFound(identifier.value.clone())),
                }
            }
        },
        AST::IntegerLiteral(literal) => {
            if depth == 0 {
                Err(RuntimeError::NestingTooDeep)
            } else {
                Ok(Object::from_int(literal.value))
            }
        },
    };
    match outcome {
        Ok(object) => Ok(unwrap_return(object)),
        Err(e) => Err(e),
    }
}

fn eval_statements<'a>(statements: &'a Vec<Statements>, env: &mut Environment<'a>, depth: usize)
    -> (r: Result<Object<'a>, RuntimeError>)
    requires
        old(env).wf(),
    ensures
        final(env).wf(),
        spec_kept(old(env)@, final(env)@),
        spec_clean(old(env)@) ==> (r matches Ok(object) ==> spec_flat(object@)),
        final(env)@ == spec_eval_statements(
            statements_model(statements@),
            0,
            old(env)@,
            depth as nat,
        ).0,
        object_result_model(r) == spec_eval_statements(
            statements_model(statements@),
            0,
            old(env)@,
            depth as nat,
        ).1,
    decreases depth, 30nat,
{
    proof {
        env.lemma_wf();
    }
    let n: usize = statements.len();
    let mut i: usize = 0;
    while i < n
        invariant
            env.wf(),
            spec_kept(old(env)@, env@),
            n == statements.len(),
            i <= n,
            spec_eval_statements(statements_model(statements@), i as nat, env@, depth as nat)
                == spec_eval_statements(statements_model(statements@), 0, old(env)@, depth as nat),
        decreases n - i,
    {
        match eval_statement(&statements[i], env, depth) {
            Err(e) => {
                return Err(e);
            },
            Ok(value) => {
                if value.is_return_signal() || i + 1 == n {
                    return Ok(value);
                }
            },
        }
        i += 1;
    }
    Ok(Object::null())
}

fn eval_statement<'a>(statement: &'a Statements, env: &mut Environment<'a>, depth: usize) -> (r:
    Result<Object<'a>, RuntimeError>)
    requires
        old(env).wf(),
    ensures
        final(env).wf(),
        spec_kept(old(env)@, final(env)@),
        spec_clean(old(env)@) ==> (r matches Ok(object) ==> spec_flat(object@)),
        final(env)@ == spec_eval_statement(statement@, old(env)@, depth as nat).0,
        object_result_model(r) == spec_eval_statement(statement@, old(env)@, depth as nat).1,
    decreases depth, 20nat,
{
    match statement {
        Statements::LetStatement(x) => {
            let value: Object<'a> = match eval_expression(&x.value, env, depth) {
                Ok(value) => value,
                Err(e) => {
                    return Err(e);
                },
            };
            if value.is_return_signal() {
                return Ok(value);
            }
            proof {
                env.lemma_wf();
                lemma_set_kept(env@, x.name.value@, value@);
            }
            env.set(x.name.value.as_str(), value);
            Ok(Object::null())
        },
        Statements::ReturnStatement(x) => {
            let value: Object<'a> = match eval_expression(&x.return_value, env, depth) {
                Ok(value) => value,
                Err(e) => {
                    return Err(e);
                },
            };
            if value.is_return_signal() {
                return Ok(value);
            }
            Ok(Object { object_type: ObjectType::ReturnSignal(Box::new(value)) })
        },
        Statements::ExpressionStatement(x) => eval_expression(&x.expression, env, depth),
    }
}

fn eval_expression<'a>(expression: &'a Expression, env: &mut Environment<'a>, depth: usize) -> (r:
    Result<Object<'a>, RuntimeError>)
    requires
        old(env).wf(),
    ensures
        final(env).wf(),
        spec_kept(old(env)@, final(env)@),
        spec_clean(old(env)@) ==> (r matches Ok(object) ==> spec_flat(object@)),
        final(env)@ == spec_eval_expression(expression@, old(env)@, depth as nat).0,
        object_result_model(r) == spec_eval_expression(expression@, old(env)@, depth as nat).1,
    decreases depth, 10nat,
{
    proof {
        env.lemma_wf();
    }
    if depth == 0 {
        return Err(RuntimeError::NestingTooDeep);
    }
    eval_node(expression, env, depth - 1)
}

fn eval_node<'a>(expression: &'a Expression, env: &mut Environment<'a>, depth: usize) -> (r:
    Result<Object<'a>, RuntimeError>)
    requires
        old(env).wf(),
    ensures
        final(env).wf(),
        spec_kept(old(env)@, final(env)@),
        spec_clean(old(env)@) ==> (r matches Ok(object) ==> spec_flat(object@)),
        final(env)@ == spec_eval_node(expression@, old(env)@, depth as nat).0,
        object_result_model(r) == spec_eval_node(expression@, old(env)@, depth as nat).1,
    decreases depth, 50nat,
{
    proof {
        env.lemma_wf();
        if spec_clean(env@) {
            if let Expression::Identifier(x) = expression {
                lemma_lookup_clean(env@, env@.current, x.value@);
            }
        }
    }
    match expression {
        Expression::Identifier(x) => match env.get(x.value.as_str()) {
            Some(value) => Ok(value),
            None => Err(RuntimeError::IdentifierNotFound(x.value.clone())),
        },
        Expression::IntegerLiteral(x) => Ok(Object::from_int(x.value)),
        Expression::Boolean(x) => Ok(Object::from_bool(x.value)),
        Expression::PrefixExpression(x) => eval_prefix_expression(x, env, depth),
        Expression::InfixExpression(x) => eval_infix_expression(x, env, depth),
        Expression::IfExpression(x) => {
            proof {
                lemma_if_model(*x);
            }
            eval_if_expression(x, env, depth)
        },
        Expression::FunctionLiteral(x) => {
            proof {
                lemma_function_model(*x);
            }
            Ok(
                Object {
                    object_type: ObjectType::Function { literal: x, environment: env.current() },
                },
            )
        },
        Expression::CallExpression(x) => {
            proof {
                lemma_call_model(*x);
            }
            eval_call_expression(x, env, depth)
        },
    }
}

/// Evaluates the operand and applies the operator to its value.
pub fn eval_prefix_expression<'a>(
    prefix_expression: &'a PrefixExpression,
    env: &mut Environment<'a>,
    depth: usize,
) -> (r: Result<Object<'a>, RuntimeError>)
    requires
        old(env).wf(),
    ensures
        final(env).wf(),
        spec_kept(old(env)@, final(env)@),
        spec_clean(old(env)@) ==> (r matches Ok(object) ==> spec_flat(object@)),
        final(env)@ == spec_eval_node(prefix_expression@, old(env)@, depth as nat).0,
        object_result_model(r) == spec_eval_node(prefix_expression@, old(env)@, depth as nat).1,
    decreases depth, 45nat,
{
    let right: Object<'a> = match eval_expression(&prefix_expression.right, env, depth) {
        Ok(right) => right,
        Err(e) => {
            return Err(e);
        },
    };
    if right.is_return_signal() {
        return Ok(right);
    }
    apply_prefix(prefix_expression.operator.as_str(), &right)
}

/// Evaluates the left operand, then the right one, and applies the
/// operator to their values.
pub fn eval_infix_expression<'a>(
    infix_expression: &'a InfixExpression,
    env: &mut Environment<'a>,
    depth: usize,
) -> (r: Result<Object<'a>, RuntimeError>)
    requires
        old(env).wf(),
    ensures
        final(env).wf(),
        spec_kept(old(env)@, final(env)@),
        spec_clean(old(env)@) ==> (r matches Ok(object) ==> spec_flat(object@)),
        final(env)@ == spec_eval_node(infix_expression@, old(env)@, depth as nat).0,
        object_result_model(r) == spec_eval_node(infix_expression@, old(env)@, depth as nat).1,
    decreases depth, 45nat,
{
    let left: Object<'a> = match eval_expression(&infix_expression.left, env, depth) {
        Ok(left) => left,
        Err(e) => {
            return Err(e);
        },
    };
    if left.is_return_signal() {
        return Ok(left);
    }
    let right: Object<'a> = match eval_expression(&infix_expression.right, env, depth) {
        Ok(right) => right,
        Err(e) => {
            return Err(e);
        },
    };
    if right.is_return_signal() {
        return Ok(right);
    }
    apply_infix(infix_expression.operator.as_str(), &left, &right)
}

fn eval_if_expression<'a>(
    if_expression: &'a IfExpression,
    env: &mut Environment<'a>,
    depth: usize,
) -> (r: Result<Object<'a>, RuntimeError>)
    requires
        old(env).wf(),
    ensures
        final(env).wf(),
        spec_kept(old(env)@, final(env)@),
        spec_clean(old(env)@) ==> (r matches Ok(object) ==> spec_flat(object@)),
        final(env)@ == spec_eval_node(if_expression@, old(env)@, depth as nat).0,
        object_result_model(r) == spec_eval_node(if_expression@, old(env)@, depth as nat).1,
    decreases depth, 45nat,
{
    let condition: Object<'a> = match eval_expression(&if_expression.condition, env, depth) {
        Ok(condition) => condition,
        Err(e) => {
            return Err(e);
        },
    };
    if condition.is_return_signal() {
        return Ok(condition);
    }
    if condition.is_truthy() {
        eval_statements(&if_expression.consequence.statements, env, depth)
    } else {
        match &if_expression.alternative {
            Some(block) => eval_statements(&block.statements, env, depth),
            None => Ok(Object::null()),
        }
    }
}

fn eval_call_expression<'a>(
    call_expression: &'a CallExpression,
    env: &mut Environment<'a>,
    depth: usize,
) -> (r: Result<Object<'a>, RuntimeError>)
    requires
        old(env).wf(),
    ensures
        final(env).wf(),
        spec_kept(old(env)@, final(env)@),
        spec_clean(old(env)@) ==> (r matches Ok(object) ==> spec_flat(object@)),
        final(env)@ == spec_eval_node(call_expression@, old(env)@, depth as nat).0,
        object_result_model(r) == spec_eval_node(call_expression@, old(env)@, depth as nat).1,
    decreases depth, 45nat,
{
    let callee: Object<'a> = match eval_expression(&call_expression.function, env, depth) {
        Ok(callee) => callee,
        Err(e) => {
            return Err(e);
        },
    };
    match &callee.object_type {
        ObjectType::ReturnSignal(_) => Ok(callee),
        ObjectType::Function { literal, environment } => {
            let literal: &'a FunctionLiteral = *literal;
            let environment: usize = *environment;
            match eval_arguments(&call_expression.arguments, env, depth) {
                Err(early) => early,
                Ok(values) => apply_function(literal, environment, values, env, depth),
            }
        },
        _ => Err(RuntimeError::NotAFunction),
    }
}

fn eval_arguments<'a>(arguments: &'a Vec<Expression>, env: &mut Environment<'a>, depth: usize)
    -> (r: Result<Vec<Object<'a>>, Result<Object<'a>, RuntimeError>>)
    requires
        old(env).wf(),
    ensures
        final(env).wf(),
        spec_kept(old(env)@, final(env)@),
        r matches Ok(values) ==> spec_settled(objects_model(values@)),
        spec_clean(old(env)@) ==> (r matches Err(Ok(object)) ==> spec_flat(object@)),
        final(env)@ == spec_eval_arguments(
            expressions_model(arguments@),
            0,
            Seq::empty(),
            old(env)@,
            depth as nat,
        ).0,
        arguments_result_model(r) == spec_eval_arguments(
            expressions_model(arguments@),
            0,
            Seq::empty(),
            old(env)@,
            depth as nat,
        ).1,
    decreases depth, 30nat,
{
    let mut values: Vec<Object<'a>> = Vec::new();
    proof {
        env.lemma_wf();
        assert(objects_model(values@) =~= Seq::empty());
    }
    let n: usize = arguments.len();
    let mut i: usize = 0;
    while i < n
        invariant
            env.wf(),
            spec_kept(old(env)@, env@),
            spec_settled(objects_model(values@)),
            n == arguments.len(),
            i <= n,
            spec_eval_arguments(
                expressions_model(arguments@),
                i as nat,
                objects_model(values@),
                env@,
                depth as nat,
            ) == spec_eval_arguments(
                expressions_model(arguments@),
                0,
                Seq::empty(),
                old(env)@,
                depth as nat,
            ),
        decreases n - i,
    {
        let value: Object<'a> = match eval_expression(&arguments[i], env, depth) {
            Ok(value) => value,
            Err(e) => {
                return Err(Err(e));
            },
        };
        if value.is_return_signal() {
            return Err(Ok(value));
        }
        proof {
            lemma_objects_model_push(values@, value);
        }
        values.push(value);
        i += 1;
    }
    Ok(values)
}

fn apply_function<'a>(
    literal: &'a FunctionLiteral,
    environment: usize,
    arguments: Vec<Object<'a>>,
    env: &mut Environment<'a>,
    depth: usize,
) -> (r: Result<Object<'a>, RuntimeError>)
    requires
        old(env).wf(),
        spec_settled(objects_model(arguments@)),
    ensures
        final(env).wf(),
        spec_kept(old(env)@, final(env)@),
        spec_clean(old(env)@) ==> (r matches Ok(object) ==> !(object@ is ReturnSignal)),
        final(env)@ == spec_apply_function(
            literal@,
            environment as nat,
            objects_model(arguments@),
            old(env)@,
            depth as nat,
        ).0,
        object_result_model(r) == spec_apply_function(
            literal@,
            environment as nat,
            objects_model(arguments@),
            old(env)@,
            depth as nat,
        ).1,
    decreases depth, 40nat,
{
    proof {
        env.lemma_wf();
        lemma_new_enclosed_kept(env@, environment as nat);
    }
    let n: usize = literal.parameters.len();
    if arguments.len() != n {
        return Err(RuntimeError::WrongArgumentCount { expected: n, actual: arguments.len() });
    }
    let caller: usize = env.current();
    let scope: usize = match env.new_enclosed(environment) {
        Some(scope) => scope,
        None => {
            return Err(RuntimeError::UnknownScope);
        },
    };
    proof {
        env.lemma_wf();
        lemma_enter_kept(env@, scope as nat);
    }
    env.enter(scope);
    let ghost entered = env@;
    proof {
        env.lemma_wf();
    }
    let mut i: usize = 0;
    while i < n
        invariant
            env.wf(),
            spec_kept(entered, env@),
            spec_settled(objects_model(arguments@)),
            n == literal.parameters.len(),
            n == arguments.len(),
            i <= n,
            spec_bind_parameters(env@, literal@.parameters, objects_model(arguments@), i as nat)
                == spec_bind_parameters(
                entered,
                literal@.parameters,
                objects_model(arguments@),
                0,
            ),
        decreases n - i,
    {
        proof {
            env.lemma_wf();
            lemma_set_kept(env@, literal.parameters[i as int].value@, arguments[i as int]@);
        }
        env.set(literal.parameters[i].value.as_str(), arguments[i].duplicate());
        i += 1;
    }
    let outcome: Result<Object<'a>, RuntimeError> = eval_statements(
        &literal.body.statements,
        env,
        depth,
    );
    proof {
        env.lemma_wf();
        lemma_enter_kept(env@, caller as nat);
    }
    env.enter(caller);
    match outcome {
        Ok(object) => Ok(unwrap_return(object)),
        Err(e) => Err(e),
    }
}

} // verus!
