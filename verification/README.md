# merge_lua_ast

Writes Lua-side descriptions of Rust syntax trees back into the trees. A
refactoring script edits a tree as nested Lua tables (`{kind = "Binary", op =
"+", lhs = ..., rhs = ...}`); the merges here read those tables and update the
tree node by node.

* `src/lua.rs`: Lua values and tables as plain data, and the conversions a
  merge reads them with (`get_string`, `get_u32`, `get_table`, ...).
* `src/ast.rs`: the part of the syntax tree a merge touches, with its
  mathematical form.
* `src/names.rs`: the names a description uses for operators, suffixes,
  binding modes and function kinds.
* `src/expr.rs`: merging into expressions, which rebuilds them from the table.
* `src/merge.rs`: merging into patterns, parameters, `let`s, statements,
  blocks, items, impl items, modules, crates and functions, in place.
* `src/outcome.rs`: how a merge ends (the node it leaves, the error, or a
  panic that the preconditions rule out).
* `src/laws.rs`: properties over several merges: idempotence, shape and
  per-element results of the list merges,
  and how expression merges treat the old expression.
* `app/lib.rs`: reads tables out of a running Lua state with `rlua` and calls
  the merges.

Every merge is specified by a spec function over the tree's mathematical form
and verified with Verus.
