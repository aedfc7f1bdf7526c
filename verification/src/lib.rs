//! # ternary-types
//!
//! Core types shared across ternary crates:
//!
//! | Type | Description |
//! |------|-------------|
//! | [`Ternary`] | The three balanced states `{-1, 0, +1}` |
//! | [`TritVector`] | A vector of trits with element-wise arithmetic |
//! | [`TernaryMatrix`] | 2D matrix of trits |
//! | [`PackedTrits`] | Low-level packed trit representation (2 bits/trit) |

pub mod algebra;
mod convert;
mod iter;
mod matrix;
mod order;
mod packed;
mod ternary;
mod text;
mod trit_vector;
pub mod trits;
pub mod z3;

pub use convert::{i8_slice_to_trits, law_i8_clamp, trit_or_neutral, TernaryConvertible};
pub use iter::{byte_trit, bytes_trits, law_byte_thresholds, law_bytes_roundtrip, law_trit_byte_values, trit_byte, trits_bytes, trits_to_bytes, TritIterator};
pub use matrix::{
    flat_index, is_identity, is_product, is_transpose, law_matmul_identity_left,
    law_matmul_identity_right, law_transpose_involutive, neutral_entries, TernaryMatrix,
};
pub use order::compare_ints;
pub use packed::{
    decode_spec, encode_spec, field, law_code_table, law_decode_encode, law_pack_unpack,
    law_packed_count, packed_count, packs,
    trit_at, PackedTrits, TRITS_PER_U64,
};
pub use ternary::{balanced, is_trit_value, narrow_spec, trit_of};
pub use ternary::{Ternary, TernaryError, TernaryIter, TernaryResult};
pub use text::{
    decimal, decimal_digits, digit_char, digits_value, error_text, law_decimal_digits_denote,
    law_trit_text_is_signed_value, trit_text,
};
pub use trit_vector::{
    add_seq, count_diff_upto, count_nonzero_upto, dot_spec, dot_sum, hamming_spec,
    law_add_commutative, law_add_negate_is_zero, law_dot_accumulates, law_count_nonzero_is_distance_to_zero,
    law_dot_commutative, law_hamming_metric, law_mul_commutative, law_negate_involutive, mul_seq,
    neg_seq, trits_of_values, values_i8, zip_len, TritVector,
};

/// Re-export the core `Ternary` at crate root for ergonomics.
pub use Ternary::{Negative, Neutral, Positive};
