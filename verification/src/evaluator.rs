//! The evaluator: walks a syntax tree against a store of scopes.

pub mod error;
pub mod model;
pub mod operators;
pub mod order;
pub mod walk;

pub use self::error::{RuntimeError, RuntimeErrorModel};
pub use self::walk::{eval, eval_ast, eval_infix_expression, eval_prefix_expression};
pub use self::operators::{
    eval_bang_operator, eval_integer_infix_expression, eval_minus_prefix,
};
