//! Compiler from TypeScript-like declarations to serde-annotated Rust type
//! definitions: an intermediate representation, the passes that refine it,
//! a dependency graph, and an emitter.

pub mod ast;
pub mod case;
pub mod compile;
pub mod dag;
pub mod docs;
pub mod frontend;
pub mod ir;
pub mod lexical;
pub mod payload_types;
pub mod strmap;
pub mod text;
pub mod to_tokens;
pub mod tokens;
pub mod transformer;

pub use compile::{compile, CompileError};
