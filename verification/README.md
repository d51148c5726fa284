# multi-util

Traits, types and functions to construct multiformat types, verified with
Verus.

- `src/varuint.rs`: the unsigned varint format of `usize` lengths, the calls
  into `multi_trait` that encode and decode it, and the proof that a varint
  reads back as itself.
- `src/varbytes.rs`: `Varbytes`, a varint length followed by that many bytes,
  and `VarbytesMax<MAX>`, the same with the cap in its type. Decoding refuses
  a length over a cap (`DEFAULT_MAX` = `MAX_DECODED_SIZE`, 16 MiB, `MAX`, or
  one given by the caller) before a length over the bytes at hand, never
  reads outside its input, and reads back what encoding wrote.
- `src/base.rs`: the multibase table of bases as plain values.
- `src/multibase.rs`: the calls into `multi_base`.
- `src/base_encoder.rs`: the `BaseEncoder` trait and its multibase, bare
  Base58Btc and detecting encoders; text an encoder writes reads back (for
  every base but `Identity`).
- `src/base_encoded.rs`: a value paired with the base of its text form and
  the encoder that writes and reads it.
- `app/`: serde support (`Serialize`/`Deserialize` on thin copies of the
  library types, `deserialize_varbytes_with_max`, `VarbytesMax<MAX>`,
  `Varuint<T>` and its encoded form), all decoding going through the library.
