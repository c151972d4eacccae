# steel_registry

Generates the Rust source of three static registries of a Minecraft server
(world carvers, decorated pot patterns, armor trim materials) from their
parsed data. The generation logic is verified by Verus; the calls into
`heck`, `proc-macro2` and `unicode-ident` (case conversion, literal
escaping, identifier tables) are trusted, and file reading lives in `app/`.

- `src/source.rs`: literals and identifiers of the generated code.
- `src/providers.rs`: value providers and the expressions that rebuild them.
- `src/carvers.rs`: cave and canyon carvers and the carver module.
- `src/file_names.rs`: file stems, extensions and the order data files are read in.
- `src/registry.rs`: identifiers and the layout shared by the generated modules.
- `src/decorated_pot_patterns.rs`: the id-ordered pattern module.
- `src/trim_materials.rs`: the trim material module in its fixed order.
- `src/readback.rs`: the expression text of a provider or carver determines
  the value it was rendered from (proved for every value whose floats are
  finite).
- `app/`: reading the data files and turning the generated text into tokens.
