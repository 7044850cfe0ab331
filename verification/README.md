# signal-persona-mind

The contract of the mind channel between the `mind` command-line client and
the `persona-mind` state actor, as a Verus library.

- `src/` — the verified library: the channel's records that do not hold
  authorization identities, the request and reply enums over them, and every
  request variant of the channel with its operation kind; the boundary
  validation of wire paths (with a proof that normalization is idempotent),
  task tokens, scope reasons and role tokens;
  the record heads under which sum types travel, with proofs that every head
  reads back to its variant.
- `tests/` — tests of the library on concrete values.
- `app/` — the wire side: archive and Nota text forms of the records, the
  channel declaration, and the records that hold identities of the
  authorization vocabulary.
