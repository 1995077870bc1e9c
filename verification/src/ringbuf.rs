//! A fixed-capacity FIFO byte queue for one producer and one consumer.
//!
//! The producer only ever moves the write cursor and the consumer only ever
//! moves the read cursor. A byte is stored before the write cursor moves past
//! it, and read before the read cursor moves past it.

use vstd::prelude::*;
use crate::index::Index;
use crate::ring::Ring;

verus! {

/// The number of bytes that a `RingBuf` holds at once.
pub const CAPACITY: usize = 64;

/// The number of backing slots: one stays unused to tell full from empty.
const SIZE: usize = 64 + 1;

/// A ring buffer of `CAPACITY` bytes.
pub struct RingBuf {
    /// The byte slots.
    buf: [u8; SIZE],
    /// The cursor of the consumer.
    read_index: Index,
    /// The cursor of the producer.
    write_index: Index,
}

/// Why a byte was not stored.
#[derive(Debug, PartialEq, Eq, Structural)]
pub enum RingBufError {
    /// The buffer already holds `CAPACITY` bytes.
    Full,
}

impl View for RingBuf {
    type V = Seq<u8>;

    /// The bytes waiting in the buffer, oldest first.
    open spec fn view(&self) -> Seq<u8> {
        self.ring().contents()
    }
}

impl RingBuf {
    /// The slots and cursors of the buffer.
    pub closed spec fn ring(&self) -> Ring {
        Ring { slots: self.buf@, read: self.read_index@, write: self.write_index@ }
    }

    #[verifier::type_invariant]
    spec fn cursors_in_range(&self) -> bool {
        &&& self.read_index.limit() == SIZE
        &&& self.write_index.limit() == SIZE
        &&& self.read_index@ < SIZE
        &&& self.write_index@ < SIZE
    }

    /// An empty buffer.
    pub fn new() -> (buf: RingBuf)
        ensures
            buf.ring() == Ring::fresh(CAPACITY as nat),
            buf.ring().wf(),
            buf@ == Seq::<u8>::empty(),
    {
        let buf = RingBuf { buf: [0;SIZE], read_index: Index::new(SIZE), write_index: Index::new(SIZE) };
        proof {
            assert(buf.ring().slots =~= Ring::fresh(CAPACITY as nat).slots);
            Ring::lemma_fresh(CAPACITY as nat);
        }
        buf
    }

    /// Appends `byte` unless the buffer is full.
    ///
    /// On success the byte is stored in the write slot and only then does the
    /// write cursor advance; the read cursor stays. A full buffer is left as
    /// it is and the byte is refused.
    pub fn push(&mut self, byte: u8) -> (result: Result<(), RingBufError>)
        ensures
            old(self).ring().wf(),
            final(self).ring().wf(),
            final(self).ring().capacity() == CAPACITY,
            final(self).ring() == old(self).ring().try_push(byte),
            old(self)@.len() < CAPACITY ==> result == Ok::<(), RingBufError>(()) && final(self)@
                == old(self)@.push(byte),
            old(self)@.len() >= CAPACITY ==> result == Err::<(), RingBufError>(RingBufError::Full)
                && final(self)@ == old(self)@,
    {
        proof {
            use_type_invariant(&*self);
            self.ring().lemma_len();
        }
        if self.full() {
            return Err(RingBufError::Full);
        }
        proof {
            self.ring().lemma_push(byte);
        }
        self.buf[self.write_index.current()] = byte;
        self.write_index.increment();
        Ok(())
    }

    /// Removes and returns the oldest byte, or nothing from an empty buffer.
    ///
    /// The byte is read before the read cursor advances; the write cursor and
    /// the slots stay.
    pub fn pop(&mut self) -> (byte: Option<u8>)
        ensures
            old(self).ring().wf(),
            final(self).ring().wf(),
            final(self).ring().capacity() == CAPACITY,
            final(self).ring() == old(self).ring().try_pop(),
            old(self)@.len() == 0 ==> byte == None::<u8> && final(self)@ == old(self)@,
            old(self)@.len() > 0 ==> byte == Some(old(self)@.first()) && final(self)@ == old(
                self,
            )@.drop_first(),
    {
        proof {
            use_type_invariant(&*self);
            self.ring().lemma_len();
        }
        if self.empty() {
            None
        } else {
            proof {
                self.ring().lemma_pop();
            }
            let val = self.buf[self.read_index.current()];
            self.read_index.increment();
            Some(val)
        }
    }

    /// Whether the buffer holds `CAPACITY` bytes: the write cursor is one slot
    /// behind the read cursor.
    pub fn full(&self) -> (full: bool)
        ensures
            self.ring().wf(),
            self.ring().capacity() == CAPACITY,
            full == self.ring().is_full(),
            full == (self@.len() == CAPACITY),
    {
        proof {
            use_type_invariant(self);
            self.ring().lemma_len();
        }
        self.write_index.next() == self.read_index.current()
    }

    /// Whether the buffer holds nothing: the two cursors are equal.
    pub fn empty(&self) -> (empty: bool)
        ensures
            self.ring().wf(),
            self.ring().capacity() == CAPACITY,
            empty == self.ring().is_empty(),
            empty == (self@.len() == 0),
    {
        proof {
            use_type_invariant(self);
            self.ring().lemma_len();
        }
        self.read_index.current() == self.write_index.current()
    }
}

} // verus!
