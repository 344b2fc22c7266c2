# asb_interpreter

An interpreter for ASB/AST visual-novel scripts: it parses script text into
labels and tag instructions, evaluates `estimate` expressions, keeps the
variable store (local, `g.` global, `t.` temporary and `s.` system scopes),
runs the tag handlers and decides, instruction by instruction, what the host
must do next. The library is verified with Verus.

## Layout

- `src/` — the verified library.
  - `script.rs`: the script parser and its model (`parse_script`), with the
    law on label positions.
  - `expression.rs`: expression evaluation.
  - `variable.rs`: values and the variable store, with its laws.
  - `tags/`: one module per family of tags; `var_handler.rs` holds the
    `[var]` system functions.
  - `machine.rs`: the run state, the call stack and the tag queue; each step
    returns an `Action` for the host.
  - `engine.rs`: what the Lua `engine` object decides.
  - `text.rs`, `strings.rs`, `strmap.rs`: text helpers and an ordered
    string-keyed map.
- `tests/` — tests of the library.
- `app/` — the host side: the Lua runtime (mlua), JSON save data (serde),
  the loop that performs the machine's actions, and floating-point layer
  properties.
