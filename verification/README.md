# IR builders, verified

Builders for the intermediate representation (IR) of a stack-based virtual
machine, written in Verus. Values such as `Variable`, `Assignement`, `Call`,
`Function`, `Conditional` or `WhileLoop` stand for pieces of a program; they
generate IR nodes into an `IrBuilder` only when asked to (`generate`), and are
added to the program only when emitted (`emit`). A loop's body is a
sequence of statements (`Vec<Node>`), emitted in order into a builder of its
own; a function's body is a single value emitted into a builder of its own.

Layout:

- `src/ir/mod.rs` — the IR (`Expr`, `ExprNode`, `Binding`, `TypeInfo`), its
  mathematical view (`IrNode`), and `IrBuilder`: the emitted program and the
  stack of type scopes that assignments record into.
- `src/ir/semantics.rs` — the meaning of the builders: the syntax tree `Ast`
  that every generatable value stands for, `generated` (the node and the scopes
  that generating a tree yields), `type_of`, and `fits` (when generation stays
  within the builder's scopes).
- `src/ir/v2.rs` — the `Generate` trait, the builder types and their
  operators; every `generate` is proved to produce exactly `generated`.
- `src/ir/text.rs` — the debugging text of every builder (`ast_text`),
  operator symbols and type names.
- `src/ir/laws.rs` — properties of every generation (scope count, frame,
  read after assignment, self-contained function definitions, ...).
- `tests/` — executable checks on concrete programs.
