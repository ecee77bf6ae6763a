//! What evaluation keeps, shown of the meaning of every kind of node: the
//! store stays well formed, the caller's scope is in use again afterwards,
//! scopes are only added, and a pending return is never bound to a name
//! nor wrapped in another.

use vstd::prelude::*;
use crate::ast::{ExpressionModel, FunctionModel, NodeModel, StatementModel};
use crate::environment::{spec_enter, spec_get, spec_new_enclosed, EnvironmentModel};
use crate::evaluator::model::{
    lemma_bind_parameters_kept, lemma_enter_kept, lemma_lookup_clean, lemma_new_enclosed_kept,
    lemma_set_kept, spec_apply_function, spec_bind_parameters, spec_clean, spec_eval_arguments,
    spec_eval_ast, spec_eval_expression, spec_eval_node, spec_eval_statement,
    spec_eval_statements, spec_flat, spec_kept, spec_settled,
};
use crate::object::ObjectModel;

verus! {

/// Evaluating an expression keeps the store in order, and in a clean store
/// gives no pending return inside a pending return.
pub proof fn lemma_eval_expression_kept(
    expression: ExpressionModel,
    env: EnvironmentModel,
    depth: nat,
)
    requires
        env.wf(),
    ensures
        spec_kept(env, spec_eval_expression(expression, env, depth).0),
        spec_clean(env) ==> (spec_eval_expression(expression, env, depth).1 matches Ok(value)
            ==> spec_flat(value)),
    decreases depth, 1nat, 0nat,
{
    if depth > 0 {
        lemma_eval_node_kept(expression, env, (depth - 1) as nat);
    }
}

/// Evaluating a node of an expression keeps the store in order, and in a
/// clean store gives no pending return inside a pending return.
pub proof fn lemma_eval_node_kept(expression: ExpressionModel, env: EnvironmentModel, depth: nat)
    requires
        env.wf(),
    ensures
        spec_kept(env, spec_eval_node(expression, env, depth).0),
        spec_clean(env) ==> (spec_eval_node(expression, env, depth).1 matches Ok(value)
            ==> spec_flat(value)),
    decreases depth, 5nat, 0nat,
{
    match expression {
        ExpressionModel::Identifier(identifier) => {
            if spec_clean(env) {
                lemma_lookup_clean(env, env.current, identifier.value);
            }
        },
        ExpressionModel::IntegerLiteral { token, value } => {},
        ExpressionModel::Boolean { token, value } => {},
        ExpressionModel::Prefix { token, operator, right } => {
            lemma_eval_expression_kept(*right, env, depth);
        },
        ExpressionModel::Infix { token, operator, left, right } => {
            lemma_eval_expression_kept(*left, env, depth);
            let (env1, first) = spec_eval_expression(*left, env, depth);
            lemma_eval_expression_kept(*right, env1, depth);
        },
        ExpressionModel::If { token, condition, consequence, alternative } => {
            lemma_eval_expression_kept(*condition, env, depth);
            let (env1, tested) = spec_eval_expression(*condition, env, depth);
            lemma_eval_statements_kept(consequence.statements, 0, env1, depth);
            match alternative {
                Some(block) => {
                    lemma_eval_statements_kept(block.statements, 0, env1, depth);
                },
                None => {},
            }
        },
        ExpressionModel::Function(literal) => {},
        ExpressionModel::Call { token, function, arguments } => {
            lemma_eval_expression_kept(*function, env, depth);
            let (env1, called) = spec_eval_expression(*function, env, depth);
            match called {
                Ok(ObjectModel::Function { literal, environment }) => {
                    lemma_eval_arguments_kept(arguments, 0, Seq::empty(), env1, depth);
                    let (env2, evaluated) = spec_eval_arguments(
                        arguments,
                        0,
                        Seq::empty(),
                        env1,
                        depth,
                    );
                    match evaluated {
                        Ok(values) => {
                            lemma_apply_function_kept(literal, environment, values, env2, depth);
                        },
                        Err(_) => {},
                    }
                },
                _ => {},
            }
        },
    }
}

/// Evaluating arguments keeps the store in order and gives values that are
/// no pending returns.
pub proof fn lemma_eval_arguments_kept(
    arguments: Seq<ExpressionModel>,
    i: nat,
    values: Seq<ObjectModel>,
    env: EnvironmentModel,
    depth: nat,
)
    requires
        env.wf(),
        spec_settled(values),
    ensures
        spec_kept(env, spec_eval_arguments(arguments, i, values, env, depth).0),
        spec_eval_arguments(arguments, i, values, env, depth).1 matches Ok(all) ==> spec_settled(
            all,
        ),
        spec_clean(env) ==> (spec_eval_arguments(arguments, i, values, env, depth).1 matches Err(
            Ok(value),
        ) ==> spec_flat(value)),
    decreases depth, 3nat, arguments.len() - i,
{
    if i < arguments.len() {
        lemma_eval_expression_kept(arguments[i as int], env, depth);
        let (env1, evaluated) = spec_eval_expression(arguments[i as int], env, depth);
        match evaluated {
            Ok(value) => {
                if !(value is ReturnSignal) {
                    lemma_eval_arguments_kept(arguments, i + 1, values.push(value), env1, depth);
                }
            },
            Err(_) => {},
        }
    }
}

/// A call keeps the store in order, the caller's scope is in use again
/// afterwards, and in a clean store the call gives no pending return.
pub proof fn lemma_apply_function_kept(
    literal: FunctionModel,
    environment: nat,
    arguments: Seq<ObjectModel>,
    env: EnvironmentModel,
    depth: nat,
)
    requires
        env.wf(),
        spec_settled(arguments),
    ensures
        spec_kept(env, spec_apply_function(literal, environment, arguments, env, depth).0),
        spec_clean(env) ==> (spec_apply_function(
            literal,
            environment,
            arguments,
            env,
            depth,
        ).1 matches Ok(value) ==> !(value is ReturnSignal)),
    decreases depth, 4nat, 0nat,
{
    if arguments.len() == literal.parameters.len() {
        lemma_new_enclosed_kept(env, environment);
        let (env1, made) = spec_new_enclosed(env, environment);
        match made {
            Some(scope) => {
                lemma_enter_kept(env1, scope);
                let entered = spec_enter(env1, scope);
                lemma_bind_parameters_kept(entered, literal.parameters, arguments, 0);
                let env2 = spec_bind_parameters(entered, literal.parameters, arguments, 0);
                lemma_eval_statements_kept(literal.body.statements, 0, env2, depth);
                let (env3, outcome) = spec_eval_statements(literal.body.statements, 0, env2, depth);
                lemma_enter_kept(env3, env.current);
            },
            None => {},
        }
    }
}

/// Evaluating statements keeps the store in order, and in a clean store
/// gives no pending return inside a pending return.
pub proof fn lemma_eval_statements_kept(
    statements: Seq<StatementModel>,
    i: nat,
    env: EnvironmentModel,
    depth: nat,
)
    requires
        env.wf(),
    ensures
        spec_kept(env, spec_eval_statements(statements, i, env, depth).0),
        spec_clean(env) ==> (spec_eval_statements(statements, i, env, depth).1 matches Ok(value)
            ==> spec_flat(value)),
    decreases depth, 3nat, statements.len() - i,
{
    if i < statements.len() {
        lemma_eval_statement_kept(statements[i as int], env, depth);
        let (env1, outcome) = spec_eval_statement(statements[i as int], env, depth);
        match outcome {
            Ok(value) => {
                if !(value is ReturnSignal || i + 1 == statements.len()) {
                    lemma_eval_statements_kept(statements, i + 1, env1, depth);
                }
            },
            Err(_) => {},
        }
    }
}

/// Evaluating a statement keeps the store in order, and in a clean store
/// gives no pending return inside a pending return.
pub proof fn lemma_eval_statement_kept(statement: StatementModel, env: EnvironmentModel, depth: nat)
    requires
        env.wf(),
    ensures
        spec_kept(env, spec_eval_statement(statement, env, depth).0),
        spec_clean(env) ==> (spec_eval_statement(statement, env, depth).1 matches Ok(value)
            ==> spec_flat(value)),
    decreases depth, 2nat, 0nat,
{
    match statement {
        StatementModel::Let { token, name, value } => {
            lemma_eval_expression_kept(value, env, depth);
            let (env1, evaluated) = spec_eval_expression(value, env, depth);
            match evaluated {
                Ok(object) => {
                    if !(object is ReturnSignal) {
                        lemma_set_kept(env1, name.value, object);
                    }
                },
                Err(_) => {},
            }
        },
        StatementModel::Return { token, value } => {
            lemma_eval_expression_kept(value, env, depth);
        },
        StatementModel::Expression { token, value } => {
            lemma_eval_expression_kept(value, env, depth);
        },
    }
}

/// A pending return is never seen from outside: evaluating any node in a
/// clean, well-formed store gives a value that is no pending return, and
/// leaves the store clean and well formed, with the same scope in use.
pub proof fn lemma_eval_ast_kept(node: NodeModel, env: EnvironmentModel)
    requires
        env.wf(),
    ensures
        spec_kept(env, spec_eval_ast(node, env).0),
        spec_clean(env) ==> (spec_eval_ast(node, env).1 matches Ok(value) ==> !(value
            is ReturnSignal)),
{
    match node {
        NodeModel::Program(program) => {
            lemma_eval_statements_kept(program.statements, 0, env, env.max_depth);
        },
        NodeModel::Block(block) => {
            lemma_eval_statements_kept(block.statements, 0, env, env.max_depth);
        },
        NodeModel::Statement(statement) => {
            lemma_eval_statement_kept(statement, env, env.max_depth);
        },
        NodeModel::Expression(expression) => {
            lemma_eval_expression_kept(expression, env, env.max_depth);
        },
    }
}

} // verus!
