# macro_lab

A collection of procedural macros whose logic is written, specified and proved in Verus.
Each macro is a function from token trees (and item descriptions) to token trees or an error;
its contract says exactly which code it writes, or which error it reports, for every input.

- `src/tokens.rs`: token trees (`Token`, with the value `Tok`) and macro errors.
- `src/item.rs`: the description of a type definition and its named fields.
- `src/derive_input.rs`: a type definition read from a macro's raw tokens (`syn` decides whether
  they are one; the definition is then split into its parts).
- `src/syntax.rs`: token trees written out as source text, and the questions about that text
  that are left to `syn` (is it a type, an attribute's content, a braced list of named fields).
- `src/builder.rs`, `src/builder_fields.rs`: the plain builder derive and the typestate builder.
- `src/config.rs`: the input of the `config` macros and the code they write from key/value pairs.
- `src/iac.rs`: the `bucket(...) => lambda(...)` language.
- `src/panic_to_result.rs`, `src/person.rs`: the attribute that turns panics into `Err` returns,
  and the functions written for it.
- `src/make_public.rs`, `src/private.rs`, `src/other_attributes.rs`, `src/hello.rs`,
  `src/upper_case.rs`, `src/greeting.rs`: the smaller macros.
- `app/`: the macros as functions on `proc_macro2` token streams (conversion to and from the
  library's token trees, and the debug output of `analyze` and `iac`).
- `tests/`: tests of the library on concrete token trees.
