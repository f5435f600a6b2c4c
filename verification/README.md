# tsrx

A verified parser and printer for the TSRX template grammar: statement
containers (`@{ ... }`) and the `@if`, `@for`, `@switch` and `@try`
directives, inside JSX and the script around them: expressions with
sequences, assignments, conditionals, binary, prefix and postfix operators,
calls and member access; variable, function and class declarations; blocks.

Layout of `src/`:

- `span`, `syntax`, `token`, `lexer` — source positions, dialect options,
  tokens and a tokenizer with its spec (`spec_tokenize`).
- `ast` — the syntax tree; `view` — its mathematical model, in which strings
  are `Seq<char>` and vectors are `Seq`.
- `parser` — `grammar` states the grammar as spec functions from a token
  position to the node read and the position after it; `js`, `jsx` and
  `tsrx` hold the executable parser, each function proved to return exactly
  what the grammar reads (or the error it reports).
- `parser::expr` holds the expression parser (precedence climbing for the
  binary operators).
- `codegen` — `print` states the printed form of each node; the `emit`
  methods append exactly that text to an `Emitter`.
- `laws` — properties that hold for every input.
