# ternary_types

Balanced ternary types with machine-checked contracts (Verus).

- `src/ternary.rs` — the trit `Ternary` (`-1`, `0`, `+1`), its arithmetic modulo 3
  (`+`, `-`, `*`, unary `-`), conversions from and to integers, `TernaryError`,
  and `TernaryIter`.
- `src/algebra.rs` — the proved laws: the trits form the field of integers modulo 3,
  the `i8` conversions undo each other, the order follows the values.
- `src/order.rs` — `PartialOrd` for `Ternary`.
- `src/text.rs` — text forms of trits and errors (decimal rendering proved).
- `src/trit_vector.rs` — `TritVector`: element-wise arithmetic, dot product modulo 3,
  Hamming distance, with their laws.
- `src/packed.rs` — `PackedTrits`: 32 trits in a `u64`, two bits each, proved at the
  bit level.
- `src/matrix.rs` — `TernaryMatrix`: row-major trit matrices, product, transpose,
  with the identity and double-transpose laws.
- `src/convert.rs`, `src/iter.rs` — conversion trait, byte encoding of trits.
- `app/` — the serde form of a trit and the floating-point conversions, which stay
  outside the verified library.
