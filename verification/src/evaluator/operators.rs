//! Operators on values.

use vstd::prelude::*;
use crate::evaluator::error::{object_result_model, RuntimeError, RuntimeErrorModel};
use crate::object::{spec_is_truthy, Object, ObjectModel, ObjectType};
use crate::token::{spec_from_string, Token, TokenType};

verus! {

/// The quotient of two integers, rounded towards zero.
pub open spec fn spec_truncated_quotient(a: int, b: int) -> int
    recommends
        b != 0,
{
    if a >= 0 && b > 0 {
        a / b
    } else if a < 0 && b < 0 {
        (-a) / (-b)
    } else if a < 0 {
        -((-a) / b)
    } else {
        -(a / (-b))
    }
}

/// An integer as a value, if it fits in 64 bits with a sign.
pub open spec fn spec_integer_result(i: int) -> Result<ObjectModel, RuntimeErrorModel> {
    if i64::MIN <= i <= i64::MAX {
        Ok(ObjectModel::Integer(i as i64))
    } else {
        Err(RuntimeErrorModel::IntegerOverflow)
    }
}

/// An infix operator on two integers: the four arithmetic operators give
/// an integer, the four comparisons a boolean.
pub open spec fn spec_eval_integer_infix(operator: TokenType, left: i64, right: i64) -> Result<
    ObjectModel,
    RuntimeErrorModel,
> {
    match operator {
        TokenType::PLUS => spec_integer_result(left + right),
        TokenType::MINUS => spec_integer_result(left - right),
        TokenType::ASTERISK => spec_integer_result(left * right),
        TokenType::SLASH => if right == 0 {
            Err(RuntimeErrorModel::DivisionByZero)
        } else {
            spec_integer_result(spec_truncated_quotient(left as int, right as int))
        },
        TokenType::LT => Ok(ObjectModel::Boolean(left < right)),
        TokenType::GT => Ok(ObjectModel::Boolean(left > right)),
        TokenType::EQ => Ok(ObjectModel::Boolean(left == right)),
        TokenType::NOTEQ => Ok(ObjectModel::Boolean(left != right)),
        _ => Err(RuntimeErrorModel::TypeMismatch),
    }
}

/// An infix operator on two values. Two integers take all eight operators,
/// two booleans `==` and `!=`; everything else is a type mismatch.
pub open spec fn spec_eval_infix(operator: Seq<char>, left: ObjectModel, right: ObjectModel)
    -> Result<ObjectModel, RuntimeErrorModel> {
    match (left, right) {
        (ObjectModel::Integer(l), ObjectModel::Integer(r)) => spec_eval_integer_infix(
            spec_from_string(operator),
            l,
            r,
        ),
        (ObjectModel::Boolean(l), ObjectModel::Boolean(r)) => if spec_from_string(operator)
            == TokenType::EQ {
            Ok(ObjectModel::Boolean(l == r))
        } else if spec_from_string(operator) == TokenType::NOTEQ {
            Ok(ObjectModel::Boolean(l != r))
        } else {
            Err(RuntimeErrorModel::TypeMismatch)
        },
        _ => Err(RuntimeErrorModel::TypeMismatch),
    }
}

/// `!` on a value: whether it counts as false.
pub open spec fn spec_eval_bang(right: ObjectModel) -> ObjectModel {
    ObjectModel::Boolean(!spec_is_truthy(right))
}

/// `-` on a value: the negation of an integer.
pub open spec fn spec_eval_minus(right: ObjectModel) -> Result<ObjectModel, RuntimeErrorModel> {
    match right {
        ObjectModel::Integer(i) => spec_integer_result(-i),
        _ => Err(RuntimeErrorModel::TypeMismatch),
    }
}

/// A prefix operator on a value.
pub open spec fn spec_eval_prefix(operator: Seq<char>, right: ObjectModel) -> Result<
    ObjectModel,
    RuntimeErrorModel,
> {
    if spec_from_string(operator) == TokenType::BANG {
        Ok(spec_eval_bang(right))
    } else if spec_from_string(operator) == TokenType::MINUS {
        spec_eval_minus(right)
    } else {
        Err(RuntimeErrorModel::UnknownOperator(operator))
    }
}

fn integer_result<'a>(value: Option<i64>) -> (r: Result<Object<'a>, RuntimeError>)
    ensures
        object_result_model(r) == match value {
            Some(i) => Ok(ObjectModel::Integer(i)),
            None => Err(RuntimeErrorModel::IntegerOverflow),
        },
{
    match value {
        Some(i) => Ok(Object::from_int(i)),
        None => Err(RuntimeError::IntegerOverflow),
    }
}

pub fn eval_bang_operator<'a>(right: &Object<'a>) -> (r: Object<'a>)
    ensures
        r@ == spec_eval_bang(right@),
{
    Object::from_bool(!right.is_truthy())
}

pub fn eval_minus_prefix<'a>(right: &Object<'a>) -> (r: Result<Object<'a>, RuntimeError>)
    ensures
        object_result_model(r) == spec_eval_minus(right@),
{
    match right.object_type {
        ObjectType::Integer(i) => integer_result(0i64.checked_sub(i)),
        _ => Err(RuntimeError::TypeMismatch),
    }
}

pub fn eval_integer_infix_expression<'a>(operator: &str, left: i64, right: i64) -> (r: Result<
    Object<'a>,
    RuntimeError,
>)
    ensures
        object_result_model(r) == spec_eval_integer_infix(spec_from_string(operator@), left, right),
{
    match Token::fron_string(operator) {
        TokenType::PLUS => integer_result(left.checked_add(right)),
        TokenType::MINUS => integer_result(left.checked_sub(right)),
        TokenType::ASTERISK => integer_result(left.checked_mul(right)),
        TokenType::SLASH => {
            if right == 0 {
                Err(RuntimeError::DivisionByZero)
            } else {
                assert(left as int * -1 == -(left as int));
                assert(right as int * -1 == -(right as int));
                integer_result(left.checked_div(right))
            }
        },
        TokenType::LT => Ok(Object::from_bool(left < right)),
        TokenType::GT => Ok(Object::from_bool(left > right)),
        TokenType::EQ => Ok(Object::from_bool(left == right)),
        TokenType::NOTEQ => Ok(Object::from_bool(left != right)),
        _ => Err(RuntimeError::TypeMismatch),
    }
}

/// Applies an infix operator to two values.
pub fn apply_infix<'a>(operator: &str, left: &Object<'a>, right: &Object<'a>) -> (r: Result<
    Object<'a>,
    RuntimeError,
>)
    ensures
        object_result_model(r) == spec_eval_infix(operator@, left@, right@),
{
    if left.is_int() && right.is_int() {
        eval_integer_infix_expression(operator, left.integer_value(), right.integer_value())
    } else if left.is_bool() && right.is_bool() {
        match Token::fron_string(operator) {
            TokenType::EQ => Ok(Object::from_bool(left.boolean_value() == right.boolean_value())),
            TokenType::NOTEQ => Ok(
                Object::from_bool(left.boolean_value() != right.boolean_value()),
            ),
            _ => Err(RuntimeError::TypeMismatch),
        }
    } else {
        Err(RuntimeError::TypeMismatch)
    }
}

/// Applies a prefix operator to a value.
pub fn apply_prefix<'a>(operator: &str, right: &Object<'a>) -> (r: Result<
    Object<'a>,
    RuntimeError,
>)
    ensures
        object_result_model(r) == spec_eval_prefix(operator@, right@),
{
    match Token::fron_string(operator) {
        TokenType::BANG => Ok(eval_bang_operator(right)),
        TokenType::MINUS => eval_minus_prefix(right),
        _ => Err(RuntimeError::UnknownOperator(String::from_str(operator))),
    }
}

} // verus!
