# hopter_macros

The expansion logic of Hopter's `#[main]` and `#[handler(IRQ)]` attribute
macros, verified with Verus.

- `src/signature.rs` — the entry-point signature rules and their checks.
- `src/irq.rs` — the handler attribute's IRQ argument.
- `src/template.rs` — the emitted trampolines and IRQ entry sequences.
- `src/syntax.rs` — the trusted calls into `syn`, `proc_macro2` and std, and the
  token type that keeps the text it was lexed from.
- `src/expand.rs` — both macros, from input text to output tokens.
- `src/laws.rs` — properties proved across the rules and templates.
- `app/lib.rs` — the compiler-facing token-stream entry points.
