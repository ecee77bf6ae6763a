//! What evaluation means, stated as functions on the models of syntax
//! trees, values and scopes.

use vstd::prelude::*;
use crate::ast::{
    ExpressionModel, FunctionModel, IdentifierModel, NodeModel, ProgramModel, StatementModel,
};
use crate::environment::{
    lemma_enter, lemma_new_enclosed, lemma_set_is_local, spec_enter, spec_get, spec_lookup,
    spec_new_enclosed, spec_set, EnvironmentModel,
};
use crate::evaluator::error::RuntimeErrorModel;
use crate::evaluator::operators::{spec_eval_infix, spec_eval_prefix};
use crate::object::{spec_is_truthy, ObjectModel};

verus! {

/// What a pending return carries; any other value as it is.
pub open spec fn spec_unwrap_return(object: ObjectModel) -> ObjectModel {
    match object {
        ObjectModel::ReturnSignal(inner) => *inner,
        _ => object,
    }
}

/// The outcome of a function body or a program: a pending return ends
/// there and gives its value.
pub open spec fn spec_unwrap_result(r: Result<ObjectModel, RuntimeErrorModel>) -> Result<
    ObjectModel,
    RuntimeErrorModel,
> {
    match r {
        Ok(object) => Ok(spec_unwrap_return(object)),
        Err(e) => Err(e),
    }
}

/// Binds the parameters from the `i`-th on to the arguments at the same
/// places, in the scope in use.
pub open spec fn spec_bind_parameters(
    env: EnvironmentModel,
    parameters: Seq<IdentifierModel>,
    arguments: Seq<ObjectModel>,
    i: nat,
) -> EnvironmentModel
    decreases parameters.len() - i,
{
    if i < parameters.len() && i < arguments.len() {
        spec_bind_parameters(
            spec_set(env, parameters[i as int].value, arguments[i as int]),
            parameters,
            arguments,
            i + 1,
        )
    } else {
        env
    }
}

/// The value of an expression. `depth` is how many more levels of nesting
/// are allowed; where none is left, evaluation stops with an error.
pub open spec fn spec_eval_expression(expression: ExpressionModel, env: EnvironmentModel, depth: nat)
    -> (EnvironmentModel, Result<ObjectModel, RuntimeErrorModel>)
    decreases depth, 1nat, 0nat,
{
    if depth == 0 {
        (env, Err(RuntimeErrorModel::NestingTooDeep))
    } else {
        spec_eval_node(expression, env, (depth - 1) as nat)
    }
}

/// The value of an expression, by its kind. Operands are evaluated from
/// left to right. A pending return that comes out of an operand ends the
/// whole expression, and so does the first error.
pub open spec fn spec_eval_node(expression: ExpressionModel, env: EnvironmentModel, depth: nat) -> (
    EnvironmentModel,
    Result<ObjectModel, RuntimeErrorModel>,
)
    decreases depth, 5nat, 0nat,
{
    match expression {
        ExpressionModel::Identifier(identifier) => match spec_get(env, identifier.value) {
            Some(value) => (env, Ok(value)),
            None => (env, Err(RuntimeErrorModel::IdentifierNotFound(identifier.value))),
        },
        ExpressionModel::IntegerLiteral { token, value } => (env, Ok(ObjectModel::Integer(value))),
        ExpressionModel::Boolean { token, value } => (env, Ok(ObjectModel::Boolean(value))),
        ExpressionModel::Prefix { token, operator, right } => {
            let (env1, operand) = spec_eval_expression(*right, env, depth);
            match operand {
                Err(e) => (env1, Err(e)),
                Ok(value) => if value is ReturnSignal {
                    (env1, Ok(value))
                } else {
                    (env1, spec_eval_prefix(operator, value))
                },
            }
        },
        ExpressionModel::Infix { token, operator, left, right } => {
            let (env1, first) = spec_eval_expression(*left, env, depth);
            match first {
                Err(e) => (env1, Err(e)),
                Ok(left_value) => if left_value is ReturnSignal {
                    (env1, Ok(left_value))
                } else {
                    let (env2, second) = spec_eval_expression(*right, env1, depth);
                    match second {
                        Err(e) => (env2, Err(e)),
                        Ok(right_value) => if right_value is ReturnSignal {
                            (env2, Ok(right_value))
                        } else {
                            (env2, spec_eval_infix(operator, left_value, right_value))
                        },
                    }
                },
            }
        },
        ExpressionModel::If { token, condition, consequence, alternative } => {
            let (env1, tested) = spec_eval_expression(*condition, env, depth);
            match tested {
                Err(e) => (env1, Err(e)),
                Ok(value) => if value is ReturnSignal {
                    (env1, Ok(value))
                } else if spec_is_truthy(value) {
                    spec_eval_statements(consequence.statements, 0, env1, depth)
                } else {
                    match alternative {
                        Some(block) => spec_eval_statements(block.statements, 0, env1, depth),
                        None => (env1, Ok(ObjectModel::Null)),
                    }
                },
            }
        },
        ExpressionModel::Function(literal) => (
            env,
            Ok(ObjectModel::Function { literal, environment: env.current }),
        ),
        ExpressionModel::Call { token, function, arguments } => {
            let (env1, called) = spec_eval_expression(*function, env, depth);
            match called {
                Err(e) => (env1, Err(e)),
                Ok(callee) => match callee {
                    ObjectModel::ReturnSignal(_) => (env1, Ok(callee)),
                    ObjectModel::Function { literal, environment } => {
                        let (env2, evaluated) = spec_eval_arguments(
                            arguments,
                            0,
                            Seq::empty(),
                            env1,
                            depth,
                        );
                        match evaluated {
                            Err(early) => (env2, early),
                            Ok(values) => spec_apply_function(
                                literal,
                                environment,
                                values,
                                env2,
                                depth,
                            ),
                        }
                    },
                    _ => (env1, Err(RuntimeErrorModel::NotAFunction)),
                },
            }
        },
    }
}

/// The values of the arguments of a call from the `i`-th on, behind the
/// values found so far. Where an argument fails or gives a pending return,
/// that is the outcome of the whole call.
pub open spec fn spec_eval_arguments(
    arguments: Seq<ExpressionModel>,
    i: nat,
    values: Seq<ObjectModel>,
    env: EnvironmentModel,
    depth: nat,
) -> (EnvironmentModel, Result<Seq<ObjectModel>, Result<ObjectModel, RuntimeErrorModel>>)
    decreases depth, 3nat, arguments.len() - i,
{
    if i >= arguments.len() {
        (env, Ok(values))
    } else {
        let (env1, evaluated) = spec_eval_expression(arguments[i as int], env, depth);
        match evaluated {
            Err(e) => (env1, Err(Err(e))),
            Ok(value) => if value is ReturnSignal {
                (env1, Err(Ok(value)))
            } else {
                spec_eval_arguments(arguments, i + 1, values.push(value), env1, depth)
            },
        }
    }
}

/// A call of a function value: the number of arguments must be the number
/// of parameters; a new scope is made inside the scope that the function
/// was defined in, the parameters are bound there to the arguments, and
/// the body is evaluated in it. Afterwards the caller's scope is in use
/// again, and a pending return has given its value.
pub open spec fn spec_apply_function(
    literal: FunctionModel,
    environment: nat,
    arguments: Seq<ObjectModel>,
    env: EnvironmentModel,
    depth: nat,
) -> (EnvironmentModel, Result<ObjectModel, RuntimeErrorModel>)
    decreases depth, 4nat, 0nat,
{
    if arguments.len() != literal.parameters.len() {
        (
            env,
            Err(
                RuntimeErrorModel::WrongArgumentCount {
                    expected: literal.parameters.len(),
                    actual: arguments.len(),
                },
            ),
        )
    } else {
        let (env1, made) = spec_new_enclosed(env, environment);
        match made {
            None => (env1, Err(RuntimeErrorModel::UnknownScope)),
            Some(scope) => {
                let env2 = spec_bind_parameters(
                    spec_enter(env1, scope),
                    literal.parameters,
                    arguments,
                    0,
                );
                let (env3, outcome) = spec_eval_statements(literal.body.statements, 0, env2, depth);
                (spec_enter(env3, env.current), spec_unwrap_result(outcome))
            },
        }
    }
}

/// The value of the statements from the `i`-th on, in one scope: the value
/// of the last one, or of the first that gives a pending return or fails.
/// No statements give the null value.
pub open spec fn spec_eval_statements(
    statements: Seq<StatementModel>,
    i: nat,
    env: EnvironmentModel,
    depth: nat,
) -> (EnvironmentModel, Result<ObjectModel, RuntimeErrorModel>)
    decreases depth, 3nat, statements.len() - i,
{
    if i >= statements.len() {
        (env, Ok(ObjectModel::Null))
    } else {
        let (env1, outcome) = spec_eval_statement(statements[i as int], env, depth);
        match outcome {
            Err(e) => (env1, Err(e)),
            Ok(value) => if value is ReturnSignal || i + 1 == statements.len() {
                (env1, Ok(value))
            } else {
                spec_eval_statements(statements, i + 1, env1, depth)
            },
        }
    }
}

/// The value of one statement. `let` binds the name in the scope in use
/// and gives the null value; `return` gives a pending return that carries
/// the value; an expression statement gives the value of its expression.
pub open spec fn spec_eval_statement(statement: StatementModel, env: EnvironmentModel, depth: nat)
    -> (EnvironmentModel, Result<ObjectModel, RuntimeErrorModel>)
    decreases depth, 2nat, 0nat,
{
    match statement {
        StatementModel::Let { token, name, value } => {
            let (env1, evaluated) = spec_eval_expression(value, env, depth);
            match evaluated {
                Err(e) => (env1, Err(e)),
                Ok(object) => if object is ReturnSignal {
                    (env1, Ok(object))
                } else {
                    (spec_set(env1, name.value, object), Ok(ObjectModel::Null))
                },
            }
        },
        StatementModel::Return { token, value } => {
            let (env1, evaluated) = spec_eval_expression(value, env, depth);
            match evaluated {
                Err(e) => (env1, Err(e)),
                Ok(object) => if object is ReturnSignal {
                    (env1, Ok(object))
                } else {
                    (env1, Ok(ObjectModel::ReturnSignal(Box::new(object))))
                },
            }
        },
        StatementModel::Expression { token, value } => spec_eval_expression(value, env, depth),
    }
}

/// The value of a program: the value of its statements in the scope in
/// use, with a `return` at the top ending the program.
pub open spec fn spec_eval_program(program: ProgramModel, env: EnvironmentModel) -> (
    EnvironmentModel,
    Result<ObjectModel, RuntimeErrorModel>,
) {
    let (env1, outcome) = spec_eval_statements(program.statements, 0, env, env.max_depth);
    (env1, spec_unwrap_result(outcome))
}


// ---------------------------------------------------------------------
// What evaluation keeps
// ---------------------------------------------------------------------

/// No name is bound to a pending return.
pub open spec fn spec_clean(env: EnvironmentModel) -> bool {
    forall|i: int, name: Seq<char>|
        0 <= i < env.scopes.len() && (#[trigger] env.scopes[i].bindings.contains_key(name))
            ==> !(env.scopes[i].bindings[name] is ReturnSignal)
}

/// A pending return carries a value that is not itself a pending return.
pub open spec fn spec_flat(object: ObjectModel) -> bool {
    object matches ObjectModel::ReturnSignal(inner) ==> !(*inner is ReturnSignal)
}

/// None of the values is a pending return.
pub open spec fn spec_settled(values: Seq<ObjectModel>) -> bool {
    forall|i: int| 0 <= i < values.len() ==> !(#[trigger] values[i] is ReturnSignal)
}

/// What every step of evaluation keeps: the store stays well formed, the
/// same scope is in use afterwards, scopes are added and never removed,
/// the limit on depth stays, and no pending return gets bound to a name.
pub open spec fn spec_kept(before: EnvironmentModel, after: EnvironmentModel) -> bool {
    &&& after.wf()
    &&& after.current == before.current
    &&& before.scopes.len() <= after.scopes.len()
    &&& after.max_depth == before.max_depth
    &&& (spec_clean(before) ==> spec_clean(after))
}

/// What a lookup finds in a clean store is no pending return.
pub proof fn lemma_lookup_clean(env: EnvironmentModel, scope: nat, name: Seq<char>)
    requires
        spec_clean(env),
    ensures
        spec_lookup(env, scope, name) matches Some(value) ==> !(value is ReturnSignal),
    decreases scope,
{
    if scope < env.scopes.len() && !env.scopes[scope as int].bindings.contains_key(name) {
        match env.scopes[scope as int].outer {
            Some(outer) => {
                if outer < scope {
                    lemma_lookup_clean(env, outer, name);
                }
            },
            None => {},
        }
    }
}

/// Binding a value that is no pending return keeps the store in order.
pub proof fn lemma_set_kept(env: EnvironmentModel, name: Seq<char>, value: ObjectModel)
    requires
        env.wf(),
        !(value is ReturnSignal),
    ensures
        spec_kept(env, spec_set(env, name, value)),
{
    lemma_set_is_local(env, name, value);
    let after = spec_set(env, name, value);
    if spec_clean(env) {
        assert forall|i: int, other: Seq<char>|
            0 <= i < after.scopes.len() && (#[trigger] after.scopes[i].bindings.contains_key(
                other,
            )) implies !(after.scopes[i].bindings[other] is ReturnSignal) by {
            if i == env.current {
                if other != name {
                    assert(env.scopes[i].bindings.contains_key(other));
                }
            } else {
                assert(env.scopes[i].bindings.contains_key(other));
            }
        }
    }
}

/// Making a scope adds an empty scope and keeps the store in order.
pub proof fn lemma_new_enclosed_kept(env: EnvironmentModel, outer: nat)
    requires
        env.wf(),
    ensures
        spec_kept(env, spec_new_enclosed(env, outer).0),
        spec_new_enclosed(env, outer).1 matches Some(scope) ==> scope == env.scopes.len() && scope
            < spec_new_enclosed(env, outer).0.scopes.len(),
{
    if outer < env.scopes.len() {
        lemma_new_enclosed(env, outer, Seq::empty());
        let after = spec_new_enclosed(env, outer).0;
        if spec_clean(env) {
            assert forall|i: int, other: Seq<char>|
                0 <= i < after.scopes.len() && (#[trigger] after.scopes[i].bindings.contains_key(
                    other,
                )) implies !(after.scopes[i].bindings[other] is ReturnSignal) by {
                if i < env.scopes.len() {
                    assert(env.scopes[i].bindings.contains_key(other));
                }
            }
        }
    }
}

/// Entering a scope keeps everything but the scope in use.
pub proof fn lemma_enter_kept(env: EnvironmentModel, scope: nat)
    requires
        env.wf(),
    ensures
        spec_enter(env, scope).wf(),
        spec_enter(env, scope).scopes == env.scopes,
        spec_enter(env, scope).max_depth == env.max_depth,
        scope < env.scopes.len() ==> spec_enter(env, scope).current == scope,
        spec_clean(env) ==> spec_clean(spec_enter(env, scope)),
{
    lemma_enter(env, scope);
}

/// Binding parameters to values that are no pending returns keeps the
/// store in order.
pub proof fn lemma_bind_parameters_kept(
    env: EnvironmentModel,
    parameters: Seq<IdentifierModel>,
    arguments: Seq<ObjectModel>,
    i: nat,
)
    requires
        env.wf(),
        spec_settled(arguments),
    ensures
        spec_kept(env, spec_bind_parameters(env, parameters, arguments, i)),
    decreases parameters.len() - i,
{
    if i < parameters.len() && i < arguments.len() {
        let next = spec_set(env, parameters[i as int].value, arguments[i as int]);
        lemma_set_kept(env, parameters[i as int].value, arguments[i as int]);
        lemma_bind_parameters_kept(next, parameters, arguments, i + 1);
    }
}


/// The value of any node: of a program, a block or a statement as a
/// program of its own, and of an expression. A `return` ends the
/// evaluation with its value.
pub open spec fn spec_eval_ast(node: NodeModel, env: EnvironmentModel) -> (
    EnvironmentModel,
    Result<ObjectModel, RuntimeErrorModel>,
) {
    match node {
        NodeModel::Program(program) => spec_eval_program(program, env),
        NodeModel::Block(block) => {
            let (env1, outcome) = spec_eval_statements(block.statements, 0, env, env.max_depth);
            (env1, spec_unwrap_result(outcome))
        },
        NodeModel::Statement(statement) => {
            let (env1, outcome) = spec_eval_statement(statement, env, env.max_depth);
            (env1, spec_unwrap_result(outcome))
        },
        NodeModel::Expression(expression) => {
            let (env1, outcome) = spec_eval_expression(expression, env, env.max_depth);
            (env1, spec_unwrap_result(outcome))
        },
    }
}

/// Whether `after` and `outcome` are an outcome of evaluating `node` in
/// the store `before`.
pub open spec fn spec_is_value_of(
    node: NodeModel,
    before: EnvironmentModel,
    after: EnvironmentModel,
    outcome: Result<ObjectModel, RuntimeErrorModel>,
) -> bool {
    (after, outcome) == spec_eval_ast(node, before)
}

/// Evaluation is deterministic: any two outcomes of evaluating the same
/// node in the same store, a fresh one in particular, are the same value
/// or error and the same store.
pub proof fn lemma_eval_is_deterministic(
    node: NodeModel,
    before: EnvironmentModel,
    after1: EnvironmentModel,
    outcome1: Result<ObjectModel, RuntimeErrorModel>,
    after2: EnvironmentModel,
    outcome2: Result<ObjectModel, RuntimeErrorModel>,
)
    requires
        spec_is_value_of(node, before, after1, outcome1),
        spec_is_value_of(node, before, after2, outcome2),
    ensures
        after1 == after2,
        outcome1 == outcome2,
{
}

} // verus!
