//! Iterator utilities for trit sequences.

use crate::ternary::Ternary;
use vstd::prelude::*;

verus! {

/// The trit that a byte reads as: below 85 `Negative`, above 170 `Positive`,
/// `Neutral` in between.
pub open spec fn byte_trit(b: u8) -> Ternary {
    if b < 85 {
        Ternary::Negative
    } else if b > 170 {
        Ternary::Positive
    } else {
        Ternary::Neutral
    }
}

/// The byte that a trit is written as: `0`, `128` or `255`.
pub open spec fn trit_byte(t: Ternary) -> u8 {
    match t {
        Ternary::Negative => 0u8,
        Ternary::Neutral => 128u8,
        Ternary::Positive => 255u8,
    }
}

/// The trits that a byte sequence reads as.
pub open spec fn bytes_trits(bytes: Seq<u8>) -> Seq<Ternary> {
    Seq::new(bytes.len(), |i: int| byte_trit(bytes[i]))
}

/// The bytes that a trit sequence is written as.
pub open spec fn trits_bytes(trits: Seq<Ternary>) -> Seq<u8> {
    Seq::new(trits.len(), |i: int| trit_byte(trits[i]))
}

/// Yields the trits of a byte slice, one per byte.
///
/// Each byte in the source is mapped:
/// - bytes < 85 → Negative
/// - bytes in [85, 170] → Neutral
/// - bytes > 170 → Positive
pub struct TritIterator<'a> {
    bytes: &'a [u8],
    pos: usize,
}

impl<'a> TritIterator<'a> {
    /// The bytes not yet read.
    pub closed spec fn remaining(&self) -> Seq<u8> {
        self.bytes@.subrange(self.pos as int, self.bytes@.len() as int)
    }

    /// The iterator's invariant: its position lies within the slice.
    #[verifier::type_invariant]
    closed spec fn well_formed(&self) -> bool {
        self.pos <= self.bytes@.len()
    }

    /// Start reading `bytes` from its first byte.
    pub fn new(bytes: &'a [u8]) -> (r: Self)
        ensures
            r.remaining() == bytes@,
    {
        let r = Self { bytes, pos: 0 };
        proof {
            assert(r.remaining() =~= bytes@);
        }
        r
    }

    /// Read the next byte as a trit, or `None` when none is left.
    pub fn next(&mut self) -> (r: Option<Ternary>)
        ensures
            old(self).remaining().len() == 0 ==> r is None && final(self).remaining()
                == old(self).remaining(),
            old(self).remaining().len() > 0 ==> r == Some(byte_trit(old(self).remaining()[0]))
                && final(self).remaining() == old(self).remaining().drop_first(),
    {
        proof {
            use_type_invariant(&*self);
        }
        if self.pos < self.bytes.len() {
            let b = self.bytes[self.pos];
            self.pos = self.pos + 1;
            proof {
                assert(self.remaining() =~= old(self).remaining().drop_first());
            }
            if b < 85 {
                Some(Ternary::Negative)
            } else if b > 170 {
                Some(Ternary::Positive)
            } else {
                Some(Ternary::Neutral)
            }
        } else {
            None
        }
    }
}

/// Convert trits into bytes (for serialization): `0`, `128` or `255` each.
pub fn trits_to_bytes(trits: Vec<Ternary>) -> (r: Vec<u8>)
    ensures
        r@ == trits_bytes(trits@),
{
    let mut out: Vec<u8> = Vec::new();
    let mut i: usize = 0;
    while i < trits.len()
        invariant
            i <= trits@.len(),
            out@.len() == i,
            forall|j: int| 0 <= j < i ==> #[trigger] out@[j] == trit_byte(trits@[j]),
        decreases trits@.len() - i,
    {
        let b: u8 = match trits[i] {
            Ternary::Negative => 0u8,
            Ternary::Neutral => 128u8,
            Ternary::Positive => 255u8,
        };
        out.push(b);
        i = i + 1;
    }
    proof {
        assert(out@ =~= trits_bytes(trits@));
    }
    out
}

/// A byte reads as `Negative` exactly below 85, as `Positive` exactly above 170,
/// and as `Neutral` exactly from 85 to 170; the reading never decreases as the
/// byte grows.
pub proof fn law_byte_thresholds(b: u8, c: u8)
    ensures
        byte_trit(b) == Ternary::Negative <==> b < 85,
        byte_trit(b) == Ternary::Positive <==> b > 170,
        byte_trit(b) == Ternary::Neutral <==> 85 <= b <= 170,
        b <= c ==> byte_trit(b).value() <= byte_trit(c).value(),
{
}

/// Each trit's byte reads back as that trit, and the bytes are 0, 128 and 255.
pub proof fn law_trit_byte_values(t: Ternary)
    ensures
        byte_trit(trit_byte(t)) == t,
        t.value() == -1 ==> trit_byte(t) == 0,
        t.value() == 0 ==> trit_byte(t) == 128,
        t.value() == 1 ==> trit_byte(t) == 255,
{
}

/// Writing trits as bytes and reading the bytes back gives the trits again.
pub proof fn law_bytes_roundtrip(trits: Seq<Ternary>)
    ensures
        bytes_trits(trits_bytes(trits)) == trits,
{
    assert(bytes_trits(trits_bytes(trits)) =~= trits);
}

} // verus!
