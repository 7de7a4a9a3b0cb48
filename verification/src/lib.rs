//! Fragment shaders with Gator frame annotations: reading type annotations,
//! reading the syntax tree off a parse tree, checking coordinate frames,
//! writing plain GLSL, and the operation decisions of the interpreter.

pub mod ast;
pub mod emitter;
pub mod interpreter;
pub mod laws;
pub mod operation_laws;
pub mod text;
pub mod typechecker;
pub mod types;
