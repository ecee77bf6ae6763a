//! Runtime values.

use vstd::prelude::*;
use crate::ast::{spec_function_string, FunctionLiteral, FunctionModel};
use crate::utils::{integer_string, spec_integer_string};

verus! {

/// The mathematical model of a runtime value. A function value is the
/// literal it was made from and the number of the scope it was made in.
pub enum ObjectModel {
    Integer(i64),
    Boolean(bool),
    Null,
    Function { literal: FunctionModel, environment: nat },
    ReturnSignal(Box<ObjectModel>),
    Error(Seq<char>),
}

/// What a runtime value holds.
#[derive(Debug, PartialEq, Eq)]
pub enum ObjectType<'a> {
    Integer(i64),
    Boolean(bool),
    Null,
    /// A function together with the scope it was defined in.
    Function { literal: &'a FunctionLiteral, environment: usize },
    /// The value of a `return` on its way out of the enclosing function.
    ReturnSignal(Box<Object<'a>>),
    /// An error message as a value.
    Error(String),
}

/// A runtime value.
#[derive(Debug, PartialEq, Eq)]
pub struct Object<'a> {
    pub object_type: ObjectType<'a>,
}

impl<'a> Object<'a> {
    pub open spec fn model(&self) -> ObjectModel
        decreases self,
    {
        match self.object_type {
            ObjectType::Integer(i) => ObjectModel::Integer(i),
            ObjectType::Boolean(b) => ObjectModel::Boolean(b),
            ObjectType::Null => ObjectModel::Null,
            ObjectType::Function { literal, environment } => ObjectModel::Function {
                literal: literal@,
                environment: environment as nat,
            },
            ObjectType::ReturnSignal(inner) => ObjectModel::ReturnSignal(Box::new(inner.model())),
            ObjectType::Error(message) => ObjectModel::Error(message@),
        }
    }
}

impl<'a> View for Object<'a> {
    type V = ObjectModel;

    open spec fn view(&self) -> ObjectModel {
        self.model()
    }
}

/// The models of a sequence of values, in order.
pub open spec fn objects_model<'a>(v: Seq<Object<'a>>) -> Seq<ObjectModel> {
    Seq::new(v.len(), |i: int| v[i]@)
}

/// Appending a value appends its model.
pub proof fn lemma_objects_model_push<'a>(v: Seq<Object<'a>>, x: Object<'a>)
    ensures
        objects_model(v.push(x)) == objects_model(v).push(x@),
{
    assert(objects_model(v.push(x)) =~= objects_model(v).push(x@));
}

// ---------------------------------------------------------------------
// Values
// ---------------------------------------------------------------------

/// `false` and `null` count as false; every other value, the integer zero
/// included, counts as true.
pub open spec fn spec_is_truthy(object: ObjectModel) -> bool {
    match object {
        ObjectModel::Null => false,
        ObjectModel::Boolean(b) => b,
        _ => true,
    }
}

/// A value as text: an integer in decimal notation, a boolean as `true` or
/// `false`, the null value as `null`, a function as its literal, a pending
/// return as the value it carries, and an error as its message behind
/// `ERROR: `.
pub open spec fn spec_inspect(object: ObjectModel) -> Seq<char>
    decreases object,
{
    match object {
        ObjectModel::Integer(i) => spec_integer_string(i as int),
        ObjectModel::Boolean(b) => if b {
            "true"@
        } else {
            "false"@
        },
        ObjectModel::Null => "null"@,
        ObjectModel::Function { literal, environment } => spec_function_string(literal),
        ObjectModel::ReturnSignal(inner) => spec_inspect(*inner),
        ObjectModel::Error(message) => "ERROR: "@ + message,
    }
}

impl<'a> Object<'a> {
    pub fn inspect(&self) -> (s: String)
        ensures
            s@ == spec_inspect(self@),
        decreases self,
    {
        match &self.object_type {
            ObjectType::Integer(i) => integer_string(*i),
            ObjectType::Boolean(b) => if *b {
                String::from_str("true")
            } else {
                String::from_str("false")
            },
            ObjectType::Null => String::from_str("null"),
            ObjectType::Function { literal, environment } => literal.to_string(),
            ObjectType::ReturnSignal(inner) => inner.inspect(),
            ObjectType::Error(message) => {
                let mut s: String = String::from_str("ERROR: ");
                s.append(message.as_str());
                s
            },
        }
    }

    pub fn from_int(integer: i64) -> (object: Object<'a>)
        ensures
            object@ == ObjectModel::Integer(integer),
    {
        Object { object_type: ObjectType::Integer(integer) }
    }

    pub fn from_bool(boolean: bool) -> (object: Object<'a>)
        ensures
            object@ == ObjectModel::Boolean(boolean),
    {
        Object { object_type: ObjectType::Boolean(boolean) }
    }

    /// The null value.
    pub fn null() -> (object: Object<'a>)
        ensures
            object@ == ObjectModel::Null,
    {
        Object { object_type: ObjectType::Null }
    }

    /// The integer that this value holds.
    pub fn integer_value(&self) -> (i: i64)
        requires
            self@ is Integer,
        ensures
            self@ == ObjectModel::Integer(i),
    {
        match self.object_type {
            ObjectType::Integer(x) => x,
            _ => 0,
        }
    }

    /// The boolean that this value holds.
    pub fn boolean_value(&self) -> (b: bool)
        requires
            self@ is Boolean,
        ensures
            self@ == ObjectModel::Boolean(b),
    {
        match self.object_type {
            ObjectType::Boolean(x) => x,
            _ => false,
        }
    }

    pub fn is_int(&self) -> (b: bool)
        ensures
            b == (self@ is Integer),
    {
        match self.object_type {
            ObjectType::Integer(_) => true,
            _ => false,
        }
    }

    /// Whether this value is a boolean.
    pub fn is_bool(&self) -> (b: bool)
        ensures
            b == (self@ is Boolean),
    {
        match self.object_type {
            ObjectType::Boolean(_) => true,
            _ => false,
        }
    }

    /// Whether this value is a pending return.
    pub fn is_return_signal(&self) -> (b: bool)
        ensures
            b == (self@ is ReturnSignal),
    {
        match self.object_type {
            ObjectType::ReturnSignal(_) => true,
            _ => false,
        }
    }

    pub fn is_truthy(&self) -> (b: bool)
        ensures
            b == spec_is_truthy(self@),
    {
        match self.object_type {
            ObjectType::Null => false,
            ObjectType::Boolean(false) => false,
            _ => true,
        }
    }

    /// A copy of this value.
    pub fn duplicate(&self) -> (object: Object<'a>)
        ensures
            object == *self,
        decreases self,
    {
        match &self.object_type {
            ObjectType::Integer(i) => Object { object_type: ObjectType::Integer(*i) },
            ObjectType::Boolean(b) => Object { object_type: ObjectType::Boolean(*b) },
            ObjectType::Null => Object { object_type: ObjectType::Null },
            ObjectType::Function { literal, environment } => Object {
                object_type: ObjectType::Function { literal: *literal, environment: *environment },
            },
            ObjectType::ReturnSignal(inner) => Object {
                object_type: ObjectType::ReturnSignal(Box::new(inner.duplicate())),
            },
            ObjectType::Error(message) => Object { object_type: ObjectType::Error(message.clone()) },
        }
    }
}

impl<'a> Clone for Object<'a> {
    fn clone(&self) -> (object: Self)
        ensures
            object == *self,
    {
        self.duplicate()
    }
}

} // verus!
