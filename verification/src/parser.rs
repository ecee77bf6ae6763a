//! The parser: precedence climbing over the token stream.

pub mod error;
pub mod grammar;
pub mod model;
pub mod precedence;
pub mod progress;
pub mod state;

pub use self::error::{ParseError, ParseErrorKind, ParseErrorModel};
pub use self::grammar::parse;
pub use self::precedence::Precedence;
pub use self::state::{Parser, DEFAULT_MAX_DEPTH};
