# glsl_interpreter

A small toolkit for fragment shaders written in GLSL with Gator frame
annotations (`Cart3.Point<World>`, `Hom4.Matrix<Model, World>`).

- `src/types.rs` reads type annotations into `GatorType`.
- `src/ast.rs` holds the syntax tree and reads it off a concrete parse tree.
- `src/typechecker.rs` infers expression types and reports frame mismatches.
- `src/emitter.rs` writes a program back out as plain GLSL.
- `src/interpreter.rs` holds the interpreter's decisions: which operation an operator or
  built-in performs, which component a swizzle reads or updates, where a statement
  stores its result, and which inputs are loaded as which kind of value.
- `src/laws.rs` states and proves properties that span these modules.
- `src/text.rs` holds the character-level string operations they share.
- `app/main.rs` is the command-line interpreter: it parses the shader with pest,
  loads the JSON inputs, and evaluates `main()` on floating-point values.
