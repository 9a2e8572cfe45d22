//! Engineering contracts: validation rules attached to the fields of a record,
//! the code that is generated from them, and the wrapper that marks a record
//! as validated.

pub mod analyze;
pub mod codegen;
pub mod diagnostic;
pub mod filter;
pub mod intermediate;
pub mod model;
pub mod parser;
pub mod rule;
pub mod runtime;
pub mod semantics;
pub mod text;
pub mod validator;

pub use runtime::{Validated, ValidationError, Validator};
