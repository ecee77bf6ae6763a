//! Errors of evaluation.

use vstd::prelude::*;
use crate::object::{Object, ObjectModel, ObjectType};
use crate::utils::{decimal_string, spec_decimal_string};

verus! {

/// Why an evaluation stopped.
#[derive(Debug, PartialEq, Eq)]
pub enum RuntimeError {
    /// No scope in the chain binds the name.
    IdentifierNotFound(String),
    /// An operator was applied to values it is not defined for.
    TypeMismatch,
    /// A prefix operator other than `!` and `-`.
    UnknownOperator(String),
    /// A value that is no function was called.
    NotAFunction,
    /// A function was called with the wrong number of arguments.
    WrongArgumentCount { expected: usize, actual: usize },
    DivisionByZero,
    /// The result of an arithmetic operation does not fit in 64 bits.
    IntegerOverflow,
    /// Evaluation nested deeper than the store's limit.
    NestingTooDeep,
    /// A function value names a scope that the store does not hold.
    UnknownScope,
}

/// The mathematical model of an error of evaluation.
pub enum RuntimeErrorModel {
    IdentifierNotFound(Seq<char>),
    TypeMismatch,
    UnknownOperator(Seq<char>),
    NotAFunction,
    WrongArgumentCount { expected: nat, actual: nat },
    DivisionByZero,
    IntegerOverflow,
    NestingTooDeep,
    UnknownScope,
}

impl View for RuntimeError {
    type V = RuntimeErrorModel;

    open spec fn view(&self) -> RuntimeErrorModel {
        match self {
            RuntimeError::IdentifierNotFound(name) => RuntimeErrorModel::IdentifierNotFound(name@),
            RuntimeError::TypeMismatch => RuntimeErrorModel::TypeMismatch,
            RuntimeError::UnknownOperator(operator) => RuntimeErrorModel::UnknownOperator(
                operator@,
            ),
            RuntimeError::NotAFunction => RuntimeErrorModel::NotAFunction,
            RuntimeError::WrongArgumentCount { expected, actual } => {
                RuntimeErrorModel::WrongArgumentCount {
                    expected: *expected as nat,
                    actual: *actual as nat,
                }
            },
            RuntimeError::DivisionByZero => RuntimeErrorModel::DivisionByZero,
            RuntimeError::IntegerOverflow => RuntimeErrorModel::IntegerOverflow,
            RuntimeError::NestingTooDeep => RuntimeErrorModel::NestingTooDeep,
            RuntimeError::UnknownScope => RuntimeErrorModel::UnknownScope,
        }
    }
}

/// The model of the outcome of an evaluation.
pub open spec fn object_result_model<'a>(r: Result<Object<'a>, RuntimeError>) -> Result<
    ObjectModel,
    RuntimeErrorModel,
> {
    match r {
        Ok(object) => Ok(object@),
        Err(e) => Err(e@),
    }
}

/// What an error says.
pub open spec fn spec_message(error: RuntimeErrorModel) -> Seq<char> {
    match error {
        RuntimeErrorModel::IdentifierNotFound(name) => "identifier not found: "@ + name,
        RuntimeErrorModel::TypeMismatch => "type mismatch"@,
        RuntimeErrorModel::UnknownOperator(operator) => "unknown operator: "@ + operator,
        RuntimeErrorModel::NotAFunction => "not a function"@,
        RuntimeErrorModel::WrongArgumentCount { expected, actual } =>
            "wrong number of arguments: expected "@ + spec_decimal_string(expected) + ", got "@
                + spec_decimal_string(actual),
        RuntimeErrorModel::DivisionByZero => "division by zero"@,
        RuntimeErrorModel::IntegerOverflow => "integer overflow"@,
        RuntimeErrorModel::NestingTooDeep => "evaluation nested too deep"@,
        RuntimeErrorModel::UnknownScope => "unknown scope"@,
    }
}

impl RuntimeError {
    /// A copy of this error.
    pub fn duplicate(&self) -> (e: RuntimeError)
        ensures
            e == *self,
    {
        match self {
            RuntimeError::IdentifierNotFound(name) => RuntimeError::IdentifierNotFound(
                name.clone(),
            ),
            RuntimeError::TypeMismatch => RuntimeError::TypeMismatch,
            RuntimeError::UnknownOperator(operator) => RuntimeError::UnknownOperator(
                operator.clone(),
            ),
            RuntimeError::NotAFunction => RuntimeError::NotAFunction,
            RuntimeError::WrongArgumentCount { expected, actual } => {
                RuntimeError::WrongArgumentCount { expected: *expected, actual: *actual }
            },
            RuntimeError::DivisionByZero => RuntimeError::DivisionByZero,
            RuntimeError::IntegerOverflow => RuntimeError::IntegerOverflow,
            RuntimeError::NestingTooDeep => RuntimeError::NestingTooDeep,
            RuntimeError::UnknownScope => RuntimeError::UnknownScope,
        }
    }

    /// The error in words.
    pub fn message(&self) -> (s: String)
        ensures
            s@ == spec_message(self@),
    {
        match self {
            RuntimeError::IdentifierNotFound(name) => {
                let mut s: String = String::from_str("identifier not found: ");
                s.append(name.as_str());
                s
            },
            RuntimeError::TypeMismatch => String::from_str("type mismatch"),
            RuntimeError::UnknownOperator(operator) => {
                let mut s: String = String::from_str("unknown operator: ");
                s.append(operator.as_str());
                s
            },
            RuntimeError::NotAFunction => String::from_str("not a function"),
            RuntimeError::WrongArgumentCount { expected, actual } => {
                let mut s: String = String::from_str("wrong number of arguments: expected ");
                s.append(decimal_string(*expected as u64).as_str());
                s.append(", got ");
                s.append(decimal_string(*actual as u64).as_str());
                s
            },
            RuntimeError::DivisionByZero => String::from_str("division by zero"),
            RuntimeError::IntegerOverflow => String::from_str("integer overflow"),
            RuntimeError::NestingTooDeep => String::from_str("evaluation nested too deep"),
            RuntimeError::UnknownScope => String::from_str("unknown scope"),
        }
    }

    /// The error as a value that can be shown like any other.
    pub fn to_object<'a>(&self) -> (object: Object<'a>)
        ensures
            object@ == ObjectModel::Error(spec_message(self@)),
    {
        Object { object_type: ObjectType::Error(self.message()) }
    }
}

impl Clone for RuntimeError {
    fn clone(&self) -> (e: Self)
        ensures
            e == *self,
    {
        self.duplicate()
    }
}

} // verus!
