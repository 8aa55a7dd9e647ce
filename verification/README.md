# token_2022_ext

Instruction builders and account-data readers for two Token-2022 extensions,
token metadata and pausable, written in Verus.

- `src/state/metadata.rs`: the `TokenMetadata` payload reader and the
  iterator over its additional key-value pairs, with the layout as spec
  functions and the laws that relate it to the encoding the program writes.
- `src/instructions/extensions/metadata/`: `InitializeMetadata`, `RemoveKey`
  and `UpdateField`: instruction data, account roles, and the invocation.
- `src/instructions/extensions/pausable.rs` and `pausable/`: the pausable
  instructions for a single authority and for a multisig authority.
- `src/instructions/extensions/state/pausable_config.rs`: the pausable
  configuration reader.
- `src/runtime.rs`: the Solana runtime types and calls (account views, cross
  program invocation), behind trusted declarations.
- `app/lib.rs`: conversions to the runtime's error and address types, and the
  account reader that skips the borrow check.
