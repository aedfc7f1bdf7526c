//! Low-level packed trit representation using 2 bits per trit.
//!
//! A `u64` can hold 32 trits when packed densely.

use crate::ternary::Ternary;
use vstd::prelude::*;

verus! {

/// Number of trits that fit in a single `u64`.
pub const TRITS_PER_U64: usize = 32;

/// The two bits of slot `i` of `bits` (slot `i` holds bits `2i` and `2i + 1`).
pub open spec fn field(bits: u64, i: int) -> u64 {
    (bits >> ((2 * i) as u64)) & 3u64
}

/// The two-bit code of a trit: `00` Neutral, `01` Positive, `10` Negative.
pub open spec fn encode_spec(t: Ternary) -> u64 {
    match t {
        Ternary::Neutral => 0,
        Ternary::Positive => 1,
        Ternary::Negative => 2,
    }
}

/// The trit of a two-bit code; the invalid code `11` reads as `Neutral`.
pub open spec fn decode_spec(code: u64) -> Ternary {
    if code == 1 {
        Ternary::Positive
    } else if code == 2 {
        Ternary::Negative
    } else {
        Ternary::Neutral
    }
}

/// The trit stored in slot `i` of `bits`.
pub open spec fn trit_at(bits: u64, i: int) -> Ternary {
    decode_spec(field(bits, i))
}

/// The number of trits that packing `len` trits keeps: at most 32.
pub open spec fn packed_count(len: nat) -> nat {
    if len < 32 {
        len
    } else {
        32
    }
}

/// `p` is the packing of `trits`: it keeps the first (at most 32) of them, each
/// in its slot, and every slot past them is zero.
pub open spec fn packs(p: PackedTrits, trits: Seq<Ternary>) -> bool {
    &&& p.1 == packed_count(trits.len())
    &&& forall|i: int| 0 <= i < p.1 ==> field(p.0, i) == encode_spec(#[trigger] trits[i])
    &&& forall|i: int| p.1 <= i < 32 ==> #[trigger] field(p.0, i) == 0
}

/// A packed representation of trits stored in a `u64`.
///
/// Each trit uses 2 bits:
///
/// | Bits | Trit      |
/// |------|-----------|
/// | `00` | `Neutral` |
/// | `01` | `Positive` |
/// | `10` | `Negative` |
/// | `11` | (invalid) |
#[derive(Debug, Clone, Copy, PartialEq, Eq, Structural, Hash)]
pub struct PackedTrits(pub u64, pub u8);

impl PackedTrits {
    /// The count stays within the 32 slots of the word.
    pub open spec fn wf(self) -> bool {
        self.1 <= 32
    }

    /// The trits held: slot `i` for each `i` below the count.
    pub open spec fn view(self) -> Seq<Ternary> {
        Seq::new(self.1 as nat, |i: int| trit_at(self.0, i))
    }

    /// Create a new packed trit set from a raw u64; the count is clamped to 32.
    pub fn new(packed: u64, count: u8) -> (r: Self)
        ensures
            r.0 == packed,
            r.1 == if count < 32 {
                count
            } else {
                32
            },
    {
        let c: u8 = if count < 32 {
            count
        } else {
            32
        };
        PackedTrits(packed, c)
    }

    /// Pack up to 32 trits into a single `u64`; further trits are dropped.
    pub fn pack(trits: &[Ternary]) -> (r: Self)
        ensures
            packs(r, trits@),
            r.wf(),
            r.view() == trits@.take(packed_count(trits@.len()) as int),
    {
        let count: usize = if trits.len() < TRITS_PER_U64 {
            trits.len()
        } else {
            TRITS_PER_U64
        };
        let mut packed: u64 = 0;
        let mut i: usize = 0;
        proof {
            assert forall|j: int| 0 <= j < 32 implies #[trigger] field(0u64, j) == 0 by {
                lemma_field_of_zero((2 * j) as u64);
            }
        }
        while i < count
            invariant
                count == packed_count(trits@.len()),
                i <= count,
                forall|j: int| 0 <= j < i ==> field(packed, j) == encode_spec(#[trigger] trits@[j]),
                forall|j: int| i <= j < 32 ==> #[trigger] field(packed, j) == 0,
            decreases count - i,
        {
            let bits = encode_trit(trits[i]);
            let ghost before = packed;
            packed = packed | ((bits as u64) << (i * 2));
            proof {
                assert forall|j: int| 0 <= j < 32 implies #[trigger] field(packed, j) == if j
                    == i {
                    field(before, j) | (bits as u64)
                } else {
                    field(before, j)
                } by {
                    lemma_field_after_or(before, bits as u64, (2 * i) as u64, (2 * j) as u64);
                }
                assert(field(before, i as int) == 0);
                lemma_or_zero(bits as u64);
            }
            i = i + 1;
        }
        let r = PackedTrits(packed, count as u8);
        proof {
            law_pack_unpack(r, trits@);
        }
        r
    }

    /// Unpack back into a `Vec<Ternary>`.
    pub fn unpack(&self) -> (r: Vec<Ternary>)
        requires
            self.wf(),
        ensures
            r@ == self.view(),
    {
        let mut out: Vec<Ternary> = Vec::new();
        let mut i: u8 = 0;
        while i < self.1
            invariant
                self.1 <= 32,
                i <= self.1,
                out@.len() == i,
                forall|j: int| 0 <= j < i ==> #[trigger] out@[j] == trit_at(self.0, j),
            decreases self.1 - i,
        {
            let bits = (self.0 >> (i as usize * 2)) & 0b11;
            out.push(decode_trit(bits));
            i = i + 1;
        }
        proof {
            assert(out@ =~= self.view());
        }
        out
    }

    /// Access the trit at index `i`, or `None` at or past the count.
    pub fn get(&self, i: usize) -> (r: Option<Ternary>)
        requires
            i < 32 || i >= self.1,
        ensures
            r == if i < self.1 {
                Some(trit_at(self.0, i as int))
            } else {
                None::<Ternary>
            },
    {
        if i >= self.1 as usize {
            return None;
        }
        let bits = (self.0 >> (i * 2)) & 0b11;
        Some(decode_trit(bits))
    }

    /// Set the trit at index `i`; at or past the count nothing changes.
    pub fn set(&mut self, i: usize, t: Ternary)
        requires
            i < 32 || i >= old(self).1,
        ensures
            final(self).1 == old(self).1,
            i >= old(self).1 ==> *final(self) == *old(self),
            i < old(self).1 ==> forall|j: int|
                0 <= j < 32 ==> #[trigger] field(final(self).0, j) == if j == i {
                    encode_spec(t)
                } else {
                    field(old(self).0, j)
                },
            old(self).wf() && i < old(self).1 ==> final(self).view() == old(self).view().update(
                i as int,
                t,
            ),
    {
        if i >= self.1 as usize {
            return;
        }
        let bits = encode_trit(t) as u64;
        let shift = i * 2;
        let ghost before = self.0;
        self.0 = (self.0 & !(0b11 << shift)) | (bits << shift);
        proof {
            assert forall|j: int| 0 <= j < 32 implies #[trigger] field(self.0, j) == if j == i {
                encode_spec(t)
            } else {
                field(before, j)
            } by {
                lemma_field_after_replace(before, bits, shift as u64, (2 * j) as u64);
            }
            law_decode_encode(t);
            if old(self).wf() {
                assert forall|j: int| 0 <= j < self.1 implies #[trigger] self.view()[j]
                    == old(self).view().update(i as int, t)[j] by {
                    assert(field(self.0, j) == if j == i {
                        encode_spec(t)
                    } else {
                        field(before, j)
                    });
                }
                assert(self.view() =~= old(self).view().update(i as int, t));
            }
        }
    }

    /// The number of packed trits.
    pub fn len(&self) -> (r: usize)
        ensures
            r == self.1,
    {
        self.1 as usize
    }

    /// Is this empty?
    pub fn is_empty(&self) -> (r: bool)
        ensures
            r == (self.1 == 0),
    {
        self.1 == 0
    }

    /// The raw packed bits.
    pub fn bits(&self) -> (r: u64)
        ensures
            r == self.0,
    {
        self.0
    }
}

/// Encode a trit to 2-bit representation.
fn encode_trit(t: Ternary) -> (r: u8)
    ensures
        r == encode_spec(t),
{
    match t {
        Ternary::Neutral => 0b00,
        Ternary::Positive => 0b01,
        Ternary::Negative => 0b10,
    }
}

/// Decode 2 bits to a trit. Invalid patterns decode as `Neutral`.
fn decode_trit(bits: u64) -> (r: Ternary)
    ensures
        r == decode_spec(bits),
{
    match bits {
        0b00 => Ternary::Neutral,
        0b01 => Ternary::Positive,
        0b10 => Ternary::Negative,
        _ => Ternary::Neutral,
    }
}

// ---------------------------------------------------------------------------
// Bit-level facts
// ---------------------------------------------------------------------------

proof fn lemma_field_of_zero(t: u64)
    requires
        t < 64,
    ensures
        (0u64 >> t) & 3u64 == 0,
{
    assert((0u64 >> t) & 3u64 == 0) by (bit_vector);
}

proof fn lemma_or_zero(b: u64)
    ensures
        0u64 | b == b,
{
    assert(0u64 | b == b) by (bit_vector);
}

/// Or-ing a two-bit code into slot `s` changes that slot only.
proof fn lemma_field_after_or(p: u64, b: u64, s: u64, t: u64)
    requires
        b < 4,
        s < 64,
        t < 64,
        s % 2 == 0,
        t % 2 == 0,
    ensures
        ((p | (b << s)) >> t) & 3u64 == if s == t {
            ((p >> t) & 3u64) | b
        } else {
            (p >> t) & 3u64
        },
{
    assert(((p | (b << s)) >> t) & 3u64 == if s == t {
        ((p >> t) & 3u64) | b
    } else {
        (p >> t) & 3u64
    }) by (bit_vector)
        requires
            b < 4,
            s < 64,
            t < 64,
            s % 2 == 0,
            t % 2 == 0,
    ;
}

/// Clearing slot `s` and or-ing a two-bit code into it sets that slot only.
proof fn lemma_field_after_replace(p: u64, b: u64, s: u64, t: u64)
    requires
        b < 4,
        s < 64,
        t < 64,
        s % 2 == 0,
        t % 2 == 0,
    ensures
        (((p & !(3u64 << s)) | (b << s)) >> t) & 3u64 == if s == t {
            b
        } else {
            (p >> t) & 3u64
        },
{
    assert((((p & !(3u64 << s)) | (b << s)) >> t) & 3u64 == if s == t {
        b
    } else {
        (p >> t) & 3u64
    }) by (bit_vector)
        requires
            b < 4,
            s < 64,
            t < 64,
            s % 2 == 0,
            t % 2 == 0,
    ;
}

/// Decoding the code of a trit gives the trit.
pub proof fn law_decode_encode(t: Ternary)
    ensures
        decode_spec(encode_spec(t)) == t,
{
}

/// The two-bit codes: `00` for value 0, `01` for value +1, `10` for value -1; the
/// unused code `11` reads as `Neutral`, and every code reads back as its trit.
pub proof fn law_code_table(t: Ternary)
    ensures
        encode_spec(t) < 3,
        encode_spec(t) == 0 <==> t.value() == 0,
        encode_spec(t) == 1 <==> t.value() == 1,
        encode_spec(t) == 2 <==> t.value() == -1,
        decode_spec(encode_spec(t)) == t,
        decode_spec(3) == Ternary::Neutral,
{
}

/// Packing keeps all trits of a sequence of at most 32, and exactly 32 of a longer one.
pub proof fn law_packed_count(n: nat)
    ensures
        packed_count(n) <= 32,
        packed_count(n) <= n,
        n <= 32 ==> packed_count(n) == n,
        n >= 32 ==> packed_count(n) == 32,
{
}

/// A packing holds exactly the trits it kept.
pub proof fn law_pack_unpack(p: PackedTrits, trits: Seq<Ternary>)
    requires
        packs(p, trits),
    ensures
        p.wf(),
        p.view() == trits.take(p.1 as int),
{
    assert forall|i: int| 0 <= i < p.1 implies #[trigger] p.view()[i] == trits.take(
        p.1 as int,
    )[i] by {
        law_decode_encode(trits[i]);
    }
    assert(p.view() =~= trits.take(p.1 as int));
}

} // verus!
