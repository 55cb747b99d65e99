# ccfront

The front end of a small C compiler, written in Verus: every function of the
library carries a contract that Verus checks.

## Layout

- `src/lex/`: the automata behind the lexer (a nondeterministic automaton
  that can be shifted and merged, a table-driven deterministic one) and the
  scanner itself (`lex_core`), whose `next_token` is stated against a model
  of the whole scan.
- `src/parser/`: the concrete syntax tree and its grammar actions (`cst`),
  the fold over it (`cst_folder`), the older syntax tree with its type rules
  (`ast`), lookups in compressed LR tables handed in by the caller
  (`parser_yy`; the generated tables themselves are not part of this
  crate) and the LR machine that steps over them (`parser_core`).
- `src/types/`: spans, tokens, the symbol table, and the abstract syntax
  tree with its builders and type rules (`types/ast`).
- `src/utils/`: row-displacement compression of sparse tables, id
  factories, string helpers and ordered copies of hash collections.
- `app/`: the program around the library: reading the source, the lexer's
  thread and channel, the parse loop, and the copies of the library's types
  that carry `Display` and `std::error::Error`.
- `tests/`: tests of the library on concrete inputs.

## Outside crates

- `bitvec` holds the bitmap of taken slots in `utils::compress`.
- `indexmap` holds the scopes of the symbol table.
- `crossbeam-channel` and `thiserror` are used by `app/` only.
