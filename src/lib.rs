//! Runtime foundation of an embeddable scripting engine: a type-erased value
//! container with checked casts, and the outcome channel that carries results,
//! errors and the `break` / `return` signals through the evaluator.

pub mod any;
pub mod position;
pub mod result;
mod sealed;
pub mod text;

pub use any::{Any, AnyExt, Dynamic, DynamicView, TypeToken, Variant};
pub use position::Position;
pub use result::{loop_step, resolve_return, EvalAltResult, ParseError, INT};
