//! Displacements of the cursor.

use crate::types::codec::{
    le_bytes, le_value, lemma_le_bytes_len, lemma_le_value_bound, lemma_le_value_of_le_bytes,
    lemma_radix_values, load_le, store_le, ReadWriteable,
};
use crate::types::word::{signed, unsigned};
use vstd::prelude::*;

verus! {

/// A signed displacement of the cursor, in bytes. It is encoded in two bytes, least
/// significant first, in two's complement.
#[derive(Debug, Clone, Copy, PartialEq, Eq, Structural)]
pub struct Offset(pub i16);

impl Default for Offset {
    fn default() -> (offset: Self)
        ensures
            offset == Offset(0),
    {
        Offset(0)
    }
}

impl ReadWriteable for Offset {
    const NUM_BYTES: usize = 2;

    open spec fn width() -> nat {
        2
    }

    open spec fn decode(bytes: Seq<u8>) -> Self {
        Offset(signed(le_value(bytes), 0x1_0000) as i16)
    }

    open spec fn encode(self) -> Seq<u8> {
        le_bytes(unsigned(self.0 as int, 0x1_0000), 2)
    }

    proof fn lemma_num_bytes() {
    }

    proof fn lemma_round_trip(value: Self) {
        lemma_radix_values();
        let word = unsigned(value.0 as int, 0x1_0000);
        lemma_le_bytes_len(word, 2);
        lemma_le_value_of_le_bytes(word, 2);
    }

    fn from_bytes(bytes: &[u8]) -> (value: Self) {
        let word = load_le(bytes, 2);
        proof {
            lemma_radix_values();
            lemma_le_value_bound(bytes@.subrange(0, 2));
        }
        if word < 0x8000 {
            Offset(word as i16)
        } else {
            Offset((word as i64 - 0x1_0000) as i16)
        }
    }

    fn into_bytes(self, bytes: &mut [u8]) {
        let word: u64 = if self.0 >= 0 {
            self.0 as u64
        } else {
            (self.0 as i64 + 0x1_0000) as u64
        };
        store_le(word, bytes, 2);
    }
}

/// The two displacements that say where a result goes: the first leads from the end
/// of the instruction to the place of the result, the second from there to the next
/// instruction. It is encoded as the first followed by the second.
#[derive(Debug, Clone, Copy, PartialEq, Eq, Structural)]
pub struct OffsetPair(pub Offset, pub Offset);

impl Default for OffsetPair {
    fn default() -> (pair: Self)
        ensures
            pair == OffsetPair(Offset(0), Offset(0)),
    {
        OffsetPair(Offset(0), Offset(0))
    }
}

impl ReadWriteable for OffsetPair {
    const NUM_BYTES: usize = 4;

    open spec fn width() -> nat {
        4
    }

    open spec fn decode(bytes: Seq<u8>) -> Self {
        OffsetPair(Offset::decode(bytes.subrange(0, 2)), Offset::decode(bytes.subrange(2, 4)))
    }

    open spec fn encode(self) -> Seq<u8> {
        self.0.encode() + self.1.encode()
    }

    proof fn lemma_num_bytes() {
    }

    proof fn lemma_round_trip(value: Self) {
        Offset::lemma_round_trip(value.0);
        Offset::lemma_round_trip(value.1);
        assert(value.encode().subrange(0, 2) =~= value.0.encode());
        assert(value.encode().subrange(2, 4) =~= value.1.encode());
    }

    fn from_bytes(bytes: &[u8]) -> (value: Self) {
        let (left, right) = <(Offset, Offset)>::from_bytes(bytes);
        OffsetPair(left, right)
    }

    fn into_bytes(self, bytes: &mut [u8]) {
        (self.0, self.1).into_bytes(bytes)
    }
}

} // verus!
