//! Tuples of values are values: the members follow each other without padding, in
//! the order in which the tuple names them.

use crate::types::codec::ReadWriteable;
use vstd::prelude::*;

verus! {

/// A tuple of one member is encoded as the member.
impl<T1: ReadWriteable> ReadWriteable for (T1,) {
    const NUM_BYTES: usize = T1::NUM_BYTES;

    open spec fn width() -> nat {
        T1::width()
    }

    open spec fn decode(bytes: Seq<u8>) -> Self {
        (T1::decode(bytes),)
    }

    open spec fn encode(self) -> Seq<u8> {
        self.0.encode()
    }

    proof fn lemma_num_bytes() {
        T1::lemma_num_bytes();
    }

    proof fn lemma_round_trip(value: Self) {
        T1::lemma_round_trip(value.0);
    }

    fn from_bytes(bytes: &[u8]) -> (value: Self) {
        (T1::from_bytes(bytes),)
    }

    fn into_bytes(self, bytes: &mut [u8]) {
        self.0.into_bytes(bytes);
    }
}

/// A pair is encoded as its first member followed by its second.
impl<T1: ReadWriteable, T2: ReadWriteable> ReadWriteable for (T1, T2) {
    const NUM_BYTES: usize = T1::NUM_BYTES + T2::NUM_BYTES;

    open spec fn width() -> nat {
        T1::width() + T2::width()
    }

    open spec fn decode(bytes: Seq<u8>) -> Self {
        let mid = T1::width() as int;
        (T1::decode(bytes.subrange(0, mid)), T2::decode(bytes.subrange(mid, mid + T2::width())))
    }

    open spec fn encode(self) -> Seq<u8> {
        self.0.encode() + self.1.encode()
    }

    proof fn lemma_num_bytes() {
        T1::lemma_num_bytes();
        T2::lemma_num_bytes();
    }

    proof fn lemma_round_trip(value: Self) {
        T1::lemma_round_trip(value.0);
        T2::lemma_round_trip(value.1);
        let mid = T1::width() as int;
        assert(value.encode().subrange(0, mid) =~= value.0.encode());
        assert(value.encode().subrange(mid, mid + T2::width()) =~= value.1.encode());
    }

    fn from_bytes(bytes: &[u8]) -> (value: Self) {
        let len = bytes.len();
        proof {
            T1::lemma_num_bytes();
        }
        let first = T1::from_bytes(bytes);
        let second = T2::from_bytes(&bytes[T1::NUM_BYTES..len]);
        proof {
            let mid = T1::width() as int;
            let all = bytes@.subrange(0, Self::width() as int);
            assert(all.subrange(0, mid) =~= bytes@.subrange(0, mid));
            assert(all.subrange(mid, mid + T2::width()) =~= bytes@.subrange(
                mid,
                bytes@.len() as int,
            ).subrange(0, T2::width() as int));
        }
        (first, second)
    }

    fn into_bytes(self, bytes: &mut [u8]) {
        let len = bytes.len();
        proof {
            T1::lemma_num_bytes();
            T1::lemma_round_trip(self.0);
            T2::lemma_round_trip(self.1);
        }
        let (head, tail) = bytes.split_at_mut(T1::NUM_BYTES);
        self.0.into_bytes(head);
        self.1.into_bytes(tail);
        proof {
            assert(bytes@ =~= self.encode() + old(bytes)@.subrange(
                Self::width() as int,
                len as int,
            ));
        }
    }
}

/// A longer tuple is encoded as its members, one after the other. Its code goes by the
/// pair of the first member and the tuple of the others, which has the same encoding.
impl<T1: ReadWriteable, T2: ReadWriteable, T3: ReadWriteable> ReadWriteable for (T1, T2, T3) {
    const NUM_BYTES: usize = T1::NUM_BYTES + T2::NUM_BYTES + T3::NUM_BYTES;

    open spec fn width() -> nat {
        T1::width() + T2::width() + T3::width()
    }

    open spec fn decode(bytes: Seq<u8>) -> Self {
        let at1 = T1::width() as int;
        let at2 = at1 + T2::width();
        let at3 = at2 + T3::width();
        (
            T1::decode(bytes.subrange(0, at1)),
            T2::decode(bytes.subrange(at1, at2)),
            T3::decode(bytes.subrange(at2, at3)),
        )
    }

    open spec fn encode(self) -> Seq<u8> {
        self.0.encode() + self.1.encode() + self.2.encode()
    }

    proof fn lemma_num_bytes() {
        T1::lemma_num_bytes();
        T2::lemma_num_bytes();
        T3::lemma_num_bytes();
    }

    proof fn lemma_round_trip(value: Self) {
        T1::lemma_round_trip(value.0);
        T2::lemma_round_trip(value.1);
        T3::lemma_round_trip(value.2);
        let at1 = T1::width() as int;
        let at2 = at1 + T2::width();
        let at3 = at2 + T3::width();
        assert(value.encode().subrange(0, at1) =~= value.0.encode());
        assert(value.encode().subrange(at1, at2) =~= value.1.encode());
        assert(value.encode().subrange(at2, at3) =~= value.2.encode());
    }

    fn from_bytes(bytes: &[u8]) -> (value: Self) {
        let (v1, (v2, v3)) = <(T1, (T2, T3))>::from_bytes(bytes);
        proof {
            let all = bytes@.subrange(0, Self::width() as int);
            let at1 = T1::width() as int;
            let at2 = at1 + T2::width();
            let at3 = at2 + T3::width();
            let tail = all.subrange(at1, at3);
            assert(tail.subrange(0, at2 - at1) =~= all.subrange(at1, at2));
            assert(tail.subrange(at2 - at1, at3 - at1) =~= all.subrange(at2, at3));
        }
        (v1, v2, v3)
    }

    fn into_bytes(self, bytes: &mut [u8]) {
        let len = bytes.len();
        (self.0, (self.1, self.2)).into_bytes(bytes);
        assert(bytes@ =~= self.encode() + old(bytes)@.subrange(
            Self::width() as int,
            len as int,
        ));
    }
}

impl<T1: ReadWriteable, T2: ReadWriteable, T3: ReadWriteable, T4: ReadWriteable> ReadWriteable
    for (T1, T2, T3, T4) {
    const NUM_BYTES: usize = T1::NUM_BYTES + T2::NUM_BYTES + T3::NUM_BYTES + T4::NUM_BYTES;

    open spec fn width() -> nat {
        T1::width() + T2::width() + T3::width() + T4::width()
    }

    open spec fn decode(bytes: Seq<u8>) -> Self {
        let at1 = T1::width() as int;
        let at2 = at1 + T2::width();
        let at3 = at2 + T3::width();
        let at4 = at3 + T4::width();
        (
            T1::decode(bytes.subrange(0, at1)),
            T2::decode(bytes.subrange(at1, at2)),
            T3::decode(bytes.subrange(at2, at3)),
            T4::decode(bytes.subrange(at3, at4)),
        )
    }

    open spec fn encode(self) -> Seq<u8> {
        self.0.encode() + self.1.encode() + self.2.encode() + self.3.encode()
    }

    proof fn lemma_num_bytes() {
        T1::lemma_num_bytes();
        T2::lemma_num_bytes();
        T3::lemma_num_bytes();
        T4::lemma_num_bytes();
    }

    proof fn lemma_round_trip(value: Self) {
        T1::lemma_round_trip(value.0);
        T2::lemma_round_trip(value.1);
        T3::lemma_round_trip(value.2);
        T4::lemma_round_trip(value.3);
        let at1 = T1::width() as int;
        let at2 = at1 + T2::width();
        let at3 = at2 + T3::width();
        let at4 = at3 + T4::width();
        assert(value.encode().subrange(0, at1) =~= value.0.encode());
        assert(value.encode().subrange(at1, at2) =~= value.1.encode());
        assert(value.encode().subrange(at2, at3) =~= value.2.encode());
        assert(value.encode().subrange(at3, at4) =~= value.3.encode());
    }

    fn from_bytes(bytes: &[u8]) -> (value: Self) {
        let (v1, (v2, v3, v4)) = <(T1, (T2, T3, T4))>::from_bytes(bytes);
        proof {
            let all = bytes@.subrange(0, Self::width() as int);
            let at1 = T1::width() as int;
            let at2 = at1 + T2::width();
            let at3 = at2 + T3::width();
            let at4 = at3 + T4::width();
            let tail = all.subrange(at1, at4);
            assert(tail.subrange(0, at2 - at1) =~= all.subrange(at1, at2));
            assert(tail.subrange(at2 - at1, at3 - at1) =~= all.subrange(at2, at3));
            assert(tail.subrange(at3 - at1, at4 - at1) =~= all.subrange(at3, at4));
        }
        (v1, v2, v3, v4)
    }

    fn into_bytes(self, bytes: &mut [u8]) {
        let len = bytes.len();
        (self.0, (self.1, self.2, self.3)).into_bytes(bytes);
        assert(bytes@ =~= self.encode() + old(bytes)@.subrange(
            Self::width() as int,
            len as int,
        ));
    }
}

impl<
    T1: ReadWriteable,
    T2: ReadWriteable,
    T3: ReadWriteable,
    T4: ReadWriteable,
    T5: ReadWriteable,
> ReadWriteable for (T1, T2, T3, T4, T5) {
    const NUM_BYTES: usize = T1::NUM_BYTES + T2::NUM_BYTES + T3::NUM_BYTES + T4::NUM_BYTES
        + T5::NUM_BYTES;

    open spec fn width() -> nat {
        T1::width() + T2::width() + T3::width() + T4::width() + T5::width()
    }

    open spec fn decode(bytes: Seq<u8>) -> Self {
        let at1 = T1::width() as int;
        let at2 = at1 + T2::width();
        let at3 = at2 + T3::width();
        let at4 = at3 + T4::width();
        let at5 = at4 + T5::width();
        (
            T1::decode(bytes.subrange(0, at1)),
            T2::decode(bytes.subrange(at1, at2)),
            T3::decode(bytes.subrange(at2, at3)),
            T4::decode(bytes.subrange(at3, at4)),
            T5::decode(bytes.subrange(at4, at5)),
        )
    }

    open spec fn encode(self) -> Seq<u8> {
        self.0.encode() + self.1.encode() + self.2.encode() + self.3.encode() + self.4.encode()
    }

    proof fn lemma_num_bytes() {
        T1::lemma_num_bytes();
        T2::lemma_num_bytes();
        T3::lemma_num_bytes();
        T4::lemma_num_bytes();
        T5::lemma_num_bytes();
    }

    proof fn lemma_round_trip(value: Self) {
        T1::lemma_round_trip(value.0);
        T2::lemma_round_trip(value.1);
        T3::lemma_round_trip(value.2);
        T4::lemma_round_trip(value.3);
        T5::lemma_round_trip(value.4);
        let at1 = T1::width() as int;
        let at2 = at1 + T2::width();
        let at3 = at2 + T3::width();
        let at4 = at3 + T4::width();
        let at5 = at4 + T5::width();
        assert(value.encode().subrange(0, at1) =~= value.0.encode());
        assert(value.encode().subrange(at1, at2) =~= value.1.encode());
        assert(value.encode().subrange(at2, at3) =~= value.2.encode());
        assert(value.encode().subrange(at3, at4) =~= value.3.encode());
        assert(value.encode().subrange(at4, at5) =~= value.4.encode());
    }

    fn from_bytes(bytes: &[u8]) -> (value: Self) {
        let (v1, (v2, v3, v4, v5)) = <(T1, (T2, T3, T4, T5))>::from_bytes(bytes);
        proof {
            let all = bytes@.subrange(0, Self::width() as int);
            let at1 = T1::width() as int;
            let at2 = at1 + T2::width();
            let at3 = at2 + T3::width();
            let at4 = at3 + T4::width();
            let at5 = at4 + T5::width();
            let tail = all.subrange(at1, at5);
            assert(tail.subrange(0, at2 - at1) =~= all.subrange(at1, at2));
            assert(tail.subrange(at2 - at1, at3 - at1) =~= all.subrange(at2, at3));
            assert(tail.subrange(at3 - at1, at4 - at1) =~= all.subrange(at3, at4));
            assert(tail.subrange(at4 - at1, at5 - at1) =~= all.subrange(at4, at5));
        }
        (v1, v2, v3, v4, v5)
    }

    fn into_bytes(self, bytes: &mut [u8]) {
        let len = bytes.len();
        (self.0, (self.1, self.2, self.3, self.4)).into_bytes(bytes);
        assert(bytes@ =~= self.encode() + old(bytes)@.subrange(
            Self::width() as int,
            len as int,
        ));
    }
}

} // verus!
