//! What every memory offers, and the model that says what it does.

use crate::fault::{Fault, MemoryFault};
use crate::types::codec::ReadWriteable;
use crate::types::offset::{Offset, OffsetPair};
use vstd::prelude::*;

verus! {

/// How a value lies to the end of the stored bytes.
#[derive(Debug, Clone, Copy, PartialEq, Eq, Structural)]
pub enum Presence {
    /// All its bytes are stored.
    Present,
    /// It starts at the end of the stored bytes or beyond it, and not even its first
    /// byte is stored.
    Absent,
    /// The stored bytes end within it.
    CutOff,
}

/// How a value of `width` bytes at `cursor` lies to the end of `len` stored bytes.
pub open spec fn presence_of(cursor: nat, len: nat, width: nat) -> Presence {
    if cursor + width <= len {
        Presence::Present
    } else if cursor >= len {
        Presence::Absent
    } else {
        Presence::CutOff
    }
}

/// Computes how a value of `width` bytes at `cursor` lies to the end of `len` stored
/// bytes.
pub fn presence(cursor: usize, len: usize, width: usize) -> (result: Presence)
    ensures
        result == presence_of(cursor as nat, len as nat, width as nat),
{
    if cursor <= len && width <= len - cursor {
        Presence::Present
    } else if cursor >= len {
        Presence::Absent
    } else {
        Presence::CutOff
    }
}

/// Computes the address that `offset` leads to from `cursor`, if it leads to one.
pub fn displaced(cursor: usize, offset: Offset) -> (target: Option<usize>)
    ensures
        target == if 0 <= cursor + offset.0 <= usize::MAX {
            Some((cursor + offset.0) as usize)
        } else {
            None
        },
{
    cursor.checked_add_signed(offset.0 as isize)
}

/// Computes the address at which `width` bytes at `cursor` end, if they end at one.
pub fn extent(cursor: usize, width: usize) -> (end: Option<usize>)
    ensures
        end == if cursor + width <= usize::MAX {
            Some((cursor + width) as usize)
        } else {
            None
        },
{
    cursor.checked_add(width)
}

/// Memory as the instructions see it: the bytes that are stored, counted from 0, and
/// the cursor, which may stand among them or beyond the last.
pub struct MemoryView {
    pub cursor: nat,
    pub bytes: Seq<u8>,
}

impl MemoryView {
    /// Whether `width` bytes are stored at the cursor.
    pub open spec fn holds(self, width: nat) -> bool {
        self.cursor + width <= self.bytes.len()
    }

    /// How a value of `width` bytes at the cursor lies to the end of the bytes.
    pub open spec fn presence(self, width: nat) -> Presence {
        presence_of(self.cursor, self.bytes.len(), width)
    }

    /// The `width` bytes at the cursor.
    pub open spec fn window(self, width: nat) -> Seq<u8> {
        self.bytes.subrange(self.cursor as int, (self.cursor + width) as int)
    }

    /// The same bytes, with the cursor `width` bytes further on.
    pub open spec fn advance(self, width: nat) -> MemoryView {
        MemoryView { cursor: self.cursor + width, bytes: self.bytes }
    }

    /// Whether the cursor can be displaced by `offset`: it stays an address.
    pub open spec fn reaches(self, offset: int) -> bool {
        0 <= self.cursor + offset <= usize::MAX
    }

    /// The same bytes, with the cursor displaced by `offset`, forward or backward.
    pub open spec fn seek(self, offset: int) -> MemoryView {
        MemoryView { cursor: (self.cursor + offset) as nat, bytes: self.bytes }
    }

    /// Whether `width` bytes at the cursor end at an address.
    pub open spec fn admits(self, width: nat) -> bool {
        self.cursor + width <= usize::MAX
    }

    /// The memory after `data` is written at the cursor. The cursor stays. Where the
    /// write ends beyond the stored bytes, they are first extended with zeros up to its
    /// end, so that every byte between the old end and the cursor is zero.
    pub open spec fn write(self, data: Seq<u8>) -> MemoryView {
        let end = self.cursor + data.len();
        let len = if end > self.bytes.len() {
            end
        } else {
            self.bytes.len()
        };
        MemoryView {
            cursor: self.cursor,
            bytes: Seq::new(
                len,
                |i: int|
                    if self.cursor <= i < end {
                        data[i - self.cursor]
                    } else if i < self.bytes.len() {
                        self.bytes[i]
                    } else {
                        0u8
                    },
            ),
        }
    }

    /// Reading a value at the cursor: the value and the memory behind it, or the fault.
    pub open spec fn try_read<T: ReadWriteable>(self) -> Result<
        (T, MemoryView),
        Fault<MemoryFault>,
    > {
        if self.holds(T::width()) {
            Ok((T::decode(self.window(T::width())), self.advance(T::width())))
        } else {
            Err(Fault::Memory(MemoryFault::UnexpectedEnd))
        }
    }

    /// Reading a value if one is present: as `try_read`, but where the cursor stands at
    /// or beyond the end of the bytes and nothing could be read, there is no value and
    /// no fault.
    pub open spec fn try_read_if_present<T: ReadWriteable>(self) -> Result<
        (Option<T>, MemoryView),
        Fault<MemoryFault>,
    > {
        match self.presence(T::width()) {
            Presence::Present => Ok(
                (Some(T::decode(self.window(T::width()))), self.advance(T::width())),
            ),
            Presence::Absent => Ok((None, self)),
            Presence::CutOff => Err(Fault::Memory(MemoryFault::UnexpectedEnd)),
        }
    }

    /// Displacing the cursor by `offset`: the memory then, or the fault.
    pub open spec fn try_seek(self, offset: Offset) -> Result<
        ((), MemoryView),
        Fault<MemoryFault>,
    > {
        if self.reaches(offset.0 as int) {
            Ok(((), self.seek(offset.0 as int)))
        } else {
            Err(Fault::Memory(MemoryFault::OutOfRange))
        }
    }

    /// Writing `data` at the cursor: the memory then, or the fault.
    pub open spec fn try_write(self, data: Seq<u8>) -> Result<
        ((), MemoryView),
        Fault<MemoryFault>,
    > {
        if self.admits(data.len()) {
            Ok(((), self.write(data)))
        } else {
            Err(Fault::Memory(MemoryFault::OutOfRange))
        }
    }

    /// Storing a result: the cursor is displaced by the first member of `output`, `data`
    /// is written there, and the cursor is displaced by the second member.
    pub open spec fn store(self, output: OffsetPair, data: Seq<u8>) -> Result<
        ((), MemoryView),
        Fault<MemoryFault>,
    > {
        match self.try_seek(output.0) {
            Err(fault) => Err(fault),
            Ok((_, target)) => match target.try_write(data) {
                Err(fault) => Err(fault),
                Ok((_, written)) => written.try_seek(output.1),
            },
        }
    }

    /// Moving bytes: the cursor is displaced by `from`, `width` bytes are read there,
    /// the cursor, now behind them, is displaced by `to`, and the bytes are written
    /// there. The cursor stays at the start of what was written. Where `width` is 0
    /// nothing is read or written, only the cursor moves.
    pub open spec fn transfer(self, width: nat, from: Offset, to: Offset) -> Result<
        ((), MemoryView),
        Fault<MemoryFault>,
    > {
        match self.try_seek(from) {
            Err(fault) => Err(fault),
            Ok((_, source)) => if width > 0 && !source.holds(width) {
                Err(Fault::Memory(MemoryFault::UnexpectedEnd))
            } else {
                match source.advance(width).try_seek(to) {
                    Err(fault) => Err(fault),
                    Ok((_, target)) => if width == 0 {
                        Ok(((), target))
                    } else {
                        target.try_write(source.window(width))
                    },
                }
            },
        }
    }
}

/// A write changes nothing but the bytes that it writes, and fills what it adds before
/// them with zeros.
pub proof fn lemma_write_fills_with_zeros(memory: MemoryView, data: Seq<u8>)
    ensures
        memory.write(data).cursor == memory.cursor,
        memory.write(data).bytes.len() == if memory.cursor + data.len() > memory.bytes.len() {
            memory.cursor + data.len()
        } else {
            memory.bytes.len()
        },
        forall|i: int|
            0 <= i < data.len() ==> memory.write(data).bytes[memory.cursor + i] == data[i],
        forall|i: int|
            0 <= i < memory.bytes.len() && !(memory.cursor <= i < memory.cursor + data.len())
                ==> memory.write(data).bytes[i] == memory.bytes[i],
        forall|i: int|
            memory.bytes.len() <= i < memory.cursor ==> memory.write(data).bytes[i] == 0,
{
}

/// What is written at the cursor is read back from there.
pub proof fn lemma_read_after_write<T: ReadWriteable>(memory: MemoryView, value: T)
    ensures
        memory.write(value.encode()).try_read::<T>() == Ok::<(T, MemoryView), Fault<MemoryFault>>(
            (value, memory.write(value.encode()).advance(T::width())),
        ),
{
    T::lemma_round_trip(value);
    assert(memory.write(value.encode()).window(T::width()) =~= value.encode());
}

/// Whether `result`, returned by an operation that left the memory as `after`, is what
/// the model gives as `model`: the same value and memory, or the same fault. An error
/// of the store behind the memory conforms to every model.
pub open spec fn conforms<M: Memory, T>(
    result: Result<T, Fault<M::Error>>,
    after: MemoryView,
    model: Result<(T, MemoryView), Fault<MemoryFault>>,
) -> bool {
    match result {
        Ok(value) => model == Ok::<(T, MemoryView), Fault<MemoryFault>>((value, after)),
        Err(Fault::DivisionByZero) => model == Err::<(T, MemoryView), Fault<MemoryFault>>(
            Fault::DivisionByZero,
        ),
        Err(Fault::Memory(error)) => M::fault_of(error) matches Some(fault) ==> model == Err::<
            (T, MemoryView),
            Fault<MemoryFault>,
        >(Fault::Memory(fault)),
    }
}

/// A store of bytes with a cursor. Values are read and written at the cursor in their
/// encoding, see [`ReadWriteable`].
///
/// The contracts are stated over [`MemoryView`], which `view` gives for a memory. An
/// operation that returns `Ok` has done what the model says. An error whose `fault_of`
/// is `Some` is returned only where the model refuses the operation with that fault; an
/// error whose `fault_of` is `None` is a failure of the store behind the memory, of
/// which the model knows nothing. After an error the memory may be in any state.
pub trait Memory {
    type Error;

    /// The bytes and the cursor.
    spec fn view(&self) -> MemoryView;

    /// The fault of the model that `error` reports, if it reports one.
    spec fn fault_of(error: Self::Error) -> Option<MemoryFault>;

    /// Decodes a value at the cursor and moves the cursor behind it.
    fn read<T: ReadWriteable>(&mut self) -> (result: Result<T, Self::Error>)
        requires
            T::width() <= usize::MAX,
        ensures
            match result {
                Ok(value) => {
                    &&& old(self)@.holds(T::width())
                    &&& value == T::decode(old(self)@.window(T::width()))
                    &&& final(self)@ == old(self)@.advance(T::width())
                },
                Err(error) => Self::fault_of(error) matches Some(fault) ==> {
                    &&& fault == MemoryFault::UnexpectedEnd
                    &&& !old(self)@.holds(T::width())
                },
            },
    ;

    /// As `read`, but where the cursor stands at or beyond the end of the stored bytes,
    /// so that not even the first byte is there, the answer is `None` and nothing
    /// changes. Bytes that end within the value are still a fault.
    fn read_if_present<T: ReadWriteable>(&mut self) -> (result: Result<Option<T>, Self::Error>)
        requires
            T::width() <= usize::MAX,
        ensures
            match result {
                Ok(Some(value)) => {
                    &&& old(self)@.holds(T::width())
                    &&& value == T::decode(old(self)@.window(T::width()))
                    &&& final(self)@ == old(self)@.advance(T::width())
                },
                Ok(None) => {
                    &&& old(self)@.presence(T::width()) == Presence::Absent
                    &&& final(self)@ == old(self)@
                },
                Err(error) => Self::fault_of(error) matches Some(fault) ==> {
                    &&& fault == MemoryFault::UnexpectedEnd
                    &&& old(self)@.presence(T::width()) == Presence::CutOff
                },
            },
    ;

    /// Encodes `value` at the cursor, after extending the stored bytes with zeros as
    /// far as the value reaches. The cursor stays where it is.
    fn write<T: ReadWriteable>(&mut self, value: T) -> (result: Result<(), Self::Error>)
        requires
            T::width() <= usize::MAX,
        ensures
            match result {
                Ok(()) => {
                    &&& old(self)@.admits(T::width())
                    &&& final(self)@ == old(self)@.write(value.encode())
                },
                Err(error) => Self::fault_of(error) matches Some(fault) ==> {
                    &&& fault == MemoryFault::OutOfRange
                    &&& !old(self)@.admits(T::width())
                },
            },
    ;

    /// Displaces the cursor by `pos`, forward or backward.
    fn seek(&mut self, pos: Offset) -> (result: Result<(), Self::Error>)
        ensures
            match result {
                Ok(()) => {
                    &&& old(self)@.reaches(pos.0 as int)
                    &&& final(self)@ == old(self)@.seek(pos.0 as int)
                },
                Err(error) => Self::fault_of(error) matches Some(fault) ==> {
                    &&& fault == MemoryFault::OutOfRange
                    &&& !old(self)@.reaches(pos.0 as int)
                },
            },
    ;
}

/// Reads a value at the cursor, see [`MemoryView::try_read`].
pub(crate) fn fetch<M: Memory, T: ReadWriteable>(memory: &mut M) -> (result: Result<
    T,
    Fault<M::Error>,
>)
    requires
        T::width() <= usize::MAX,
    ensures
        conforms::<M, T>(result, final(memory)@, old(memory)@.try_read::<T>()),
{
    match memory.read::<T>() {
        Ok(value) => Ok(value),
        Err(error) => Err(Fault::Memory(error)),
    }
}

/// Reads a value at the cursor if one is present, see
/// [`MemoryView::try_read_if_present`].
pub(crate) fn fetch_if_present<M: Memory, T: ReadWriteable>(memory: &mut M) -> (result: Result<
    Option<T>,
    Fault<M::Error>,
>)
    requires
        T::width() <= usize::MAX,
    ensures
        conforms::<M, Option<T>>(
            result,
            final(memory)@,
            old(memory)@.try_read_if_present::<T>(),
        ),
{
    match memory.read_if_present::<T>() {
        Ok(value) => Ok(value),
        Err(error) => Err(Fault::Memory(error)),
    }
}

/// Displaces the cursor, see [`MemoryView::try_seek`].
pub(crate) fn jump<M: Memory>(memory: &mut M, offset: Offset) -> (result: Result<
    (),
    Fault<M::Error>,
>)
    ensures
        conforms::<M, ()>(result, final(memory)@, old(memory)@.try_seek(offset)),
{
    match memory.seek(offset) {
        Ok(()) => Ok(()),
        Err(error) => Err(Fault::Memory(error)),
    }
}

/// Writes a value at the cursor, see [`MemoryView::try_write`].
pub(crate) fn put<M: Memory, T: ReadWriteable>(memory: &mut M, value: T) -> (result: Result<
    (),
    Fault<M::Error>,
>)
    requires
        T::width() <= usize::MAX,
    ensures
        conforms::<M, ()>(result, final(memory)@, old(memory)@.try_write(value.encode())),
{
    proof {
        T::lemma_round_trip(value);
    }
    match memory.write(value) {
        Ok(()) => Ok(()),
        Err(error) => Err(Fault::Memory(error)),
    }
}

} // verus!
