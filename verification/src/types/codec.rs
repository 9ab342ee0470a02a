//! The codec: every value type has a fixed width and a byte encoding.

use crate::fault::MemoryFault;
use vstd::prelude::*;

verus! {

/// `0x100` to the power of `width`: the number of values that `width` bytes can spell.
pub open spec fn radix(width: nat) -> nat
    decreases width,
{
    if width == 0 {
        1
    } else {
        0x100 * radix((width - 1) as nat)
    }
}

/// The number that `bytes` spell, least significant byte first.
pub open spec fn le_value(bytes: Seq<u8>) -> nat
    decreases bytes.len(),
{
    if bytes.len() == 0 {
        0
    } else {
        bytes[0] as nat + 0x100 * le_value(bytes.skip(1))
    }
}

/// The `width` low bytes of `value`, least significant byte first.
pub open spec fn le_bytes(value: nat, width: nat) -> Seq<u8>
    decreases width,
{
    if width == 0 {
        Seq::empty()
    } else {
        seq![(value % 0x100) as u8] + le_bytes(value / 0x100, (width - 1) as nat)
    }
}

/// The values of `radix` at the widths that the machine's integers have.
pub proof fn lemma_radix_values()
    ensures
        radix(0) == 1,
        radix(1) == 0x100,
        radix(2) == 0x1_0000,
        radix(4) == 0x1_0000_0000,
        radix(8) == 0x1_0000_0000_0000_0000,
{
    reveal_with_fuel(radix, 9);
}

/// `radix` grows with the width.
pub proof fn lemma_radix_monotonic(narrow: nat, wide: nat)
    requires
        narrow <= wide,
    ensures
        0 < radix(narrow) <= radix(wide),
    decreases wide,
{
    if wide == 0 {
    } else if narrow == wide {
        lemma_radix_monotonic((narrow - 1) as nat, (wide - 1) as nat);
    } else {
        lemma_radix_monotonic(narrow, (wide - 1) as nat);
    }
}

/// A sequence of bytes spells a number below `radix` of its length.
pub proof fn lemma_le_value_bound(bytes: Seq<u8>)
    ensures
        le_value(bytes) < radix(bytes.len()),
    decreases bytes.len(),
{
    if bytes.len() > 0 {
        lemma_le_value_bound(bytes.skip(1));
    }
}

/// `le_bytes` gives as many bytes as it is asked for.
pub proof fn lemma_le_bytes_len(value: nat, width: nat)
    ensures
        le_bytes(value, width).len() == width,
    decreases width,
{
    if width > 0 {
        lemma_le_bytes_len(value / 0x100, (width - 1) as nat);
    }
}

/// The bytes of a number that fits in `width` bytes spell that number.
pub proof fn lemma_le_value_of_le_bytes(value: nat, width: nat)
    requires
        value < radix(width),
    ensures
        le_value(le_bytes(value, width)) == value,
    decreases width,
{
    if width > 0 {
        let rest = le_bytes(value / 0x100, (width - 1) as nat);
        lemma_le_bytes_len(value / 0x100, (width - 1) as nat);
        lemma_le_value_of_le_bytes(value / 0x100, (width - 1) as nat);
        assert(le_bytes(value, width).skip(1) =~= rest);
    }
}

/// Reads the number that the first `width` bytes of `bytes` spell.
pub(crate) fn load_le(bytes: &[u8], width: usize) -> (value: u64)
    requires
        width <= 8,
        bytes@.len() >= width,
    ensures
        value == le_value(bytes@.subrange(0, width as int)),
{
    let mut value: u64 = 0;
    let mut i: usize = width;
    while i > 0
        invariant
            i <= width <= 8,
            bytes@.len() >= width,
            value == le_value(bytes@.subrange(i as int, width as int)),
        decreases i,
    {
        i = i - 1;
        proof {
            let tail = bytes@.subrange(i as int, width as int);
            assert(tail.skip(1) =~= bytes@.subrange(i + 1, width as int));
            lemma_le_value_bound(tail.skip(1));
            lemma_radix_monotonic(tail.skip(1).len(), 7);
            reveal_with_fuel(radix, 8);
        }
        value = value * 0x100 + bytes[i] as u64;
    }
    value
}

/// Writes the `width` low bytes of `value` over the first `width` bytes of `bytes`.
pub(crate) fn store_le(value: u64, bytes: &mut [u8], width: usize)
    requires
        width <= 8,
        old(bytes)@.len() >= width,
    ensures
        final(bytes)@ == le_bytes(value as nat, width as nat) + old(bytes)@.subrange(
            width as int,
            old(bytes)@.len() as int,
        ),
{
    let mut rest: u64 = value;
    let mut i: usize = 0;
    while i < width
        invariant
            i <= width <= 8,
            bytes@.len() == old(bytes)@.len(),
            bytes@.len() >= width,
            le_bytes(value as nat, width as nat) == bytes@.subrange(0, i as int) + le_bytes(
                rest as nat,
                (width - i) as nat,
            ),
            bytes@.subrange(i as int, bytes@.len() as int) == old(bytes)@.subrange(
                i as int,
                bytes@.len() as int,
            ),
        decreases width - i,
    {
        let ghost before = bytes@;
        bytes[i] = (rest % 0x100) as u8;
        proof {
            let low = seq![(rest % 0x100) as u8];
            let high = le_bytes((rest / 0x100) as nat, (width - i - 1) as nat);
            assert(bytes@.subrange(0, i + 1) =~= before.subrange(0, i as int) + low);
            assert(before.subrange(0, i as int) + (low + high) =~= (before.subrange(0, i as int)
                + low) + high);
            assert(bytes@.subrange(i + 1, bytes@.len() as int) =~= before.subrange(
                i as int,
                bytes@.len() as int,
            ).skip(1));
            assert(old(bytes)@.subrange(i + 1, bytes@.len() as int) =~= old(bytes)@.subrange(
                i as int,
                bytes@.len() as int,
            ).skip(1));
        }
        rest = rest / 0x100;
        i = i + 1;
    }
    proof {
        lemma_le_bytes_len(value as nat, width as nat);
        assert(bytes@ =~= le_bytes(value as nat, width as nat) + old(bytes)@.subrange(
            width as int,
            old(bytes)@.len() as int,
        ));
    }
}

/// A value with a fixed width and a byte encoding.
///
/// `decode` and `encode` are the model; `from_bytes` and `into_bytes` compute them.
pub trait ReadWriteable: Sized {
    /// The width of the encoding in bytes, for executable code.
    const NUM_BYTES: usize;

    /// The number of bytes that every value of this type is encoded in.
    spec fn width() -> nat;

    /// The value that `bytes`, a sequence of `width()` bytes, stands for.
    spec fn decode(bytes: Seq<u8>) -> Self;

    /// The bytes that stand for this value.
    spec fn encode(self) -> Seq<u8>;

    /// `NUM_BYTES` is `width()`, wherever the width fits the machine's word.
    proof fn lemma_num_bytes()
        requires
            Self::width() <= usize::MAX,
        ensures
            Self::NUM_BYTES == Self::width(),
    ;

    /// Encoding gives `width()` bytes, and decoding them gives the value back.
    proof fn lemma_round_trip(value: Self)
        ensures
            value.encode().len() == Self::width(),
            Self::decode(value.encode()) == value,
    ;

    /// Decodes the first `width()` bytes of `bytes`, and reads no others.
    fn from_bytes(bytes: &[u8]) -> (value: Self)
        requires
            bytes@.len() >= Self::width(),
        ensures
            value == Self::decode(bytes@.subrange(0, Self::width() as int)),
    ;

    /// Encodes this value over the first `width()` bytes of `bytes`, and leaves the
    /// others as they are.
    fn into_bytes(self, bytes: &mut [u8])
        requires
            old(bytes)@.len() >= Self::width(),
        ensures
            final(bytes)@ == self.encode() + old(bytes)@.subrange(
                Self::width() as int,
                old(bytes)@.len() as int,
            ),
    ;
}

/// What is encoded is decoded again, whatever bytes follow it.
pub proof fn lemma_decode_inverts_encode<T: ReadWriteable>(value: T, rest: Seq<u8>)
    ensures
        T::decode((value.encode() + rest).subrange(0, T::width() as int)) == value,
{
    T::lemma_round_trip(value);
    assert((value.encode() + rest).subrange(0, T::width() as int) =~= value.encode());
}

/// Decodes a value from the first bytes of `bytes`, if there are as many as the value
/// takes; fewer are an unexpected end.
pub fn decode_from<T: ReadWriteable>(bytes: &[u8]) -> (result: Result<T, MemoryFault>)
    requires
        T::width() <= usize::MAX,
    ensures
        result == if bytes@.len() >= T::width() {
            Ok::<T, MemoryFault>(T::decode(bytes@.subrange(0, T::width() as int)))
        } else {
            Err::<T, MemoryFault>(MemoryFault::UnexpectedEnd)
        },
{
    proof {
        T::lemma_num_bytes();
    }
    if bytes.len() >= T::NUM_BYTES {
        Ok(T::from_bytes(bytes))
    } else {
        Err(MemoryFault::UnexpectedEnd)
    }
}

impl ReadWriteable for u8 {
    const NUM_BYTES: usize = 1;

    open spec fn width() -> nat {
        1
    }

    open spec fn decode(bytes: Seq<u8>) -> Self {
        bytes[0]
    }

    open spec fn encode(self) -> Seq<u8> {
        seq![self]
    }

    proof fn lemma_num_bytes() {
    }

    proof fn lemma_round_trip(value: Self) {
    }

    fn from_bytes(bytes: &[u8]) -> (value: Self) {
        bytes[0]
    }

    fn into_bytes(self, bytes: &mut [u8]) {
        bytes[0] = self;
        assert(bytes@ =~= self.encode() + old(bytes)@.subrange(1, old(bytes)@.len() as int));
    }
}

impl ReadWriteable for bool {
    const NUM_BYTES: usize = 1;

    open spec fn width() -> nat {
        1
    }

    /// Every byte but zero stands for `true`.
    open spec fn decode(bytes: Seq<u8>) -> Self {
        bytes[0] != 0
    }

    open spec fn encode(self) -> Seq<u8> {
        seq![if self { 1u8 } else { 0u8 }]
    }

    proof fn lemma_num_bytes() {
    }

    proof fn lemma_round_trip(value: Self) {
    }

    fn from_bytes(bytes: &[u8]) -> (value: Self) {
        bytes[0] != 0
    }

    fn into_bytes(self, bytes: &mut [u8]) {
        bytes[0] = if self { 1 } else { 0 };
        assert(bytes@ =~= self.encode() + old(bytes)@.subrange(1, old(bytes)@.len() as int));
    }
}

impl ReadWriteable for () {
    const NUM_BYTES: usize = 0;

    open spec fn width() -> nat {
        0
    }

    open spec fn decode(bytes: Seq<u8>) -> Self {
        ()
    }

    open spec fn encode(self) -> Seq<u8> {
        Seq::empty()
    }

    proof fn lemma_num_bytes() {
    }

    proof fn lemma_round_trip(value: Self) {
    }

    fn from_bytes(bytes: &[u8]) -> (value: Self) {
        ()
    }

    fn into_bytes(self, bytes: &mut [u8]) {
        assert(bytes@ =~= self.encode() + old(bytes)@.subrange(0, old(bytes)@.len() as int));
    }
}

impl ReadWriteable for u32 {
    const NUM_BYTES: usize = 4;

    open spec fn width() -> nat {
        4
    }

    open spec fn decode(bytes: Seq<u8>) -> Self {
        le_value(bytes) as u32
    }

    open spec fn encode(self) -> Seq<u8> {
        le_bytes(self as nat, 4)
    }

    proof fn lemma_num_bytes() {
    }

    proof fn lemma_round_trip(value: Self) {
        lemma_radix_values();
        lemma_le_bytes_len(value as nat, 4);
        lemma_le_value_of_le_bytes(value as nat, 4);
    }

    fn from_bytes(bytes: &[u8]) -> (value: Self) {
        let value = load_le(bytes, 4);
        proof {
            lemma_radix_values();
            lemma_le_value_bound(bytes@.subrange(0, 4));
        }
        value as u32
    }

    fn into_bytes(self, bytes: &mut [u8]) {
        store_le(self as u64, bytes, 4);
    }
}

impl ReadWriteable for u64 {
    const NUM_BYTES: usize = 8;

    open spec fn width() -> nat {
        8
    }

    open spec fn decode(bytes: Seq<u8>) -> Self {
        le_value(bytes) as u64
    }

    open spec fn encode(self) -> Seq<u8> {
        le_bytes(self as nat, 8)
    }

    proof fn lemma_num_bytes() {
    }

    proof fn lemma_round_trip(value: Self) {
        lemma_radix_values();
        lemma_le_bytes_len(value as nat, 8);
        lemma_le_value_of_le_bytes(value as nat, 8);
    }

    fn from_bytes(bytes: &[u8]) -> (value: Self) {
        load_le(bytes, 8)
    }

    fn into_bytes(self, bytes: &mut [u8]) {
        store_le(self, bytes, 8);
    }
}

impl<const N: usize> ReadWriteable for [u8; N] {
    const NUM_BYTES: usize = N;

    open spec fn width() -> nat {
        N as nat
    }

    /// The array that holds the bytes, in their order.
    open spec fn decode(bytes: Seq<u8>) -> Self {
        choose|array: [u8; N]| array@ == bytes
    }

    open spec fn encode(self) -> Seq<u8> {
        self@
    }

    proof fn lemma_num_bytes() {
    }

    proof fn lemma_round_trip(value: Self) {
        let back = Self::decode(value@);
        assert(back@ == value@);
        assert(back =~= value);
    }

    fn from_bytes(bytes: &[u8]) -> (value: Self) {
        let mut value = [0u8; N];
        let mut i: usize = 0;
        while i < N
            invariant
                i <= N <= bytes@.len(),
                forall|j: int| 0 <= j < i ==> value@[j] == bytes@[j],
            decreases N - i,
        {
            value[i] = bytes[i];
            i = i + 1;
        }
        proof {
            let wanted = bytes@.subrange(0, N as int);
            assert(value@ =~= wanted);
            assert(Self::decode(wanted) =~= value);
        }
        value
    }

    fn into_bytes(self, bytes: &mut [u8]) {
        let mut i: usize = 0;
        while i < N
            invariant
                i <= N <= bytes@.len(),
                bytes@.len() == old(bytes)@.len(),
                forall|j: int| 0 <= j < i ==> bytes@[j] == self@[j],
                forall|j: int| i <= j < bytes@.len() ==> bytes@[j] == old(bytes)@[j],
            decreases N - i,
        {
            bytes[i] = self[i];
            i = i + 1;
        }
        assert(bytes@ =~= self@ + old(bytes)@.subrange(N as int, old(bytes)@.len() as int));
    }
}

} // verus!
