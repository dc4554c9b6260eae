# qubit_spi

Provider identities, selectors, descriptors and the error model of a
service-provider interface, written in Verus with every executable function
carrying a machine-checked contract.

## Layout

- `src/text.rs` – character classes, Unicode whitespace trimming, ASCII
  lowercasing and the canonical-token grammar as spec functions, with the
  executable helpers proved against them.
- `src/provider/` – `ProviderId` (canonical text as a type invariant),
  `ProviderSelector` (trim + ASCII-lowercase normalization, proved idempotent),
  `ProviderDescriptor` (alias normalization: distinct, canonical, never the ID).
- `src/error/` – every error type of the interface, each with a mathematical
  view and a `message()` whose text is stated exactly in its contract.
- `src/registry_model.rs` – the registration and candidate-ordering rules of a
  registry as verified functions over plain values: first owner wins, stable
  priority order, requested selectors resolved in order, and the creation
  outcome of a fallback chain.
- `tests/` – ordinary Rust tests that run the compiled library.
- `app/` – `std::error::Error` forms of the public error types (via
  `thiserror`, with `From` both ways and the cause chain kept) and the
  `provider_descriptor!` macro.

## Design notes

- Alias normalization detects a repeated alias by scanning the aliases
  already accepted, and its contract states exactly which alias is reported.
  vstd's model of `std::collections::HashSet` covers keys whose hashing it
  knows to agree with equality, which are the primitive integer types, so a
  `HashSet` of alias strings would leave what `insert` reports unproved.
- `ProviderRegistrationSource::module_name` holds what `module_path!()`
  yields at the registration site. It is not named `module_path` because that
  is the name of the std macro that produces its value.
- `ProviderDescriptor` carries its alias law as a type invariant: every alias
  is canonical, no alias equals the ID, and no two aliases are equal.
