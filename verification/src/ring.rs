//! The mathematical model of the ring buffer: a row of slots and two cursors.
//!
//! One slot always stays unused, so that a full ring and an empty ring can be
//! told apart by the cursors alone.

use vstd::prelude::*;
use vstd::arithmetic::div_mod::{lemma_mod_add_multiples_vanish, lemma_small_mod};
use crate::index::{lemma_wrap_next, wrap_next};

verus! {

/// A ring of byte slots with a read cursor and a write cursor.
pub struct Ring {
    /// The backing slots, one more than the ring can hold.
    pub slots: Seq<u8>,
    /// The slot that the next pop reads.
    pub read: nat,
    /// The slot that the next push writes.
    pub write: nat,
}

impl Ring {
    /// Both cursors point into the slots, and at least one byte fits.
    pub open spec fn wf(self) -> bool {
        &&& self.slots.len() >= 2
        &&& self.read < self.slots.len()
        &&& self.write < self.slots.len()
    }

    /// The largest number of bytes that the ring holds at once.
    pub open spec fn capacity(self) -> nat {
        (self.slots.len() - 1) as nat
    }

    /// An empty ring for `capacity` bytes.
    pub open spec fn fresh(capacity: nat) -> Ring {
        Ring { slots: Seq::new(capacity + 1, |i: int| 0u8), read: 0, write: 0 }
    }

    /// The number of bytes waiting in the ring.
    pub open spec fn len(self) -> nat {
        if self.write >= self.read {
            (self.write - self.read) as nat
        } else {
            (self.write + self.slots.len() - self.read) as nat
        }
    }

    /// The slot that holds the byte `i` places behind the oldest one.
    pub open spec fn slot(self, i: int) -> int {
        (self.read + i) % (self.slots.len() as int)
    }

    /// The bytes waiting in the ring, oldest first.
    pub open spec fn contents(self) -> Seq<u8> {
        Seq::new(self.len(), |i: int| self.slots[self.slot(i)])
    }

    /// The cursors coincide.
    pub open spec fn is_empty(self) -> bool {
        self.read == self.write
    }

    /// The write cursor stands one slot behind the read cursor.
    pub open spec fn is_full(self) -> bool {
        wrap_next(self.write, self.slots.len()) == self.read
    }

    /// Stores `byte` in the write slot, then advances the write cursor.
    pub open spec fn push(self, byte: u8) -> Ring {
        Ring {
            slots: self.slots.update(self.write as int, byte),
            read: self.read,
            write: wrap_next(self.write, self.slots.len()),
        }
    }

    /// The oldest byte.
    pub open spec fn front(self) -> u8 {
        self.slots[self.read as int]
    }

    /// Advances the read cursor past the oldest byte.
    pub open spec fn pop(self) -> Ring {
        Ring { slots: self.slots, read: wrap_next(self.read, self.slots.len()), write: self.write }
    }

    /// A push that a full ring refuses.
    pub open spec fn try_push(self, byte: u8) -> Ring {
        if self.is_full() {
            self
        } else {
            self.push(byte)
        }
    }

    /// A pop that an empty ring refuses.
    pub open spec fn try_pop(self) -> Ring {
        if self.is_empty() {
            self
        } else {
            self.pop()
        }
    }

    /// The ring after offering it each of `bytes` in turn.
    pub open spec fn push_all(self, bytes: Seq<u8>) -> Ring
        decreases bytes.len(),
    {
        if bytes.len() == 0 {
            self
        } else {
            self.push_all(bytes.drop_last()).try_push(bytes.last())
        }
    }

    /// The bytes that up to `count` pops return, in the order of the pops.
    pub open spec fn drain(self, count: nat) -> Seq<u8>
        decreases count,
    {
        if count == 0 || self.is_empty() {
            Seq::empty()
        } else {
            seq![self.front()] + self.pop().drain((count - 1) as nat)
        }
    }

    /// Within the slots, `slot` wraps around at most once.
    pub proof fn lemma_slot(self, i: int)
        requires
            self.wf(),
            0 <= i < self.slots.len(),
        ensures
            self.read + i < self.slots.len() ==> self.slot(i) == self.read + i,
            self.read + i >= self.slots.len() ==> self.slot(i) == self.read + i - self.slots.len(),
    {
        let n = self.slots.len();
        if self.read + i < n {
            lemma_small_mod((self.read + i) as nat, n);
        } else {
            let rest = self.read + i - n;
            lemma_mod_add_multiples_vanish(rest, n as int);
            lemma_small_mod(rest as nat, n);
        }
    }

    /// A ring never holds more than its capacity; it is empty exactly when it
    /// holds nothing and full exactly when it holds its capacity, so it is
    /// never both.
    pub proof fn lemma_len(self)
        requires
            self.wf(),
        ensures
            self.len() <= self.capacity(),
            self.contents().len() == self.len(),
            self.is_empty() <==> self.len() == 0,
            self.is_full() <==> self.len() == self.capacity(),
            !(self.is_empty() && self.is_full()),
    {
        lemma_wrap_next(self.write, self.slots.len());
    }

    /// A fresh ring is well formed, empty and not full.
    pub proof fn lemma_fresh(capacity: nat)
        requires
            capacity >= 1,
        ensures
            Ring::fresh(capacity).wf(),
            Ring::fresh(capacity).capacity() == capacity,
            Ring::fresh(capacity).contents() == Seq::<u8>::empty(),
            Ring::fresh(capacity).is_empty(),
            !Ring::fresh(capacity).is_full(),
    {
        let ring = Ring::fresh(capacity);
        ring.lemma_len();
        assert(ring.contents() =~= Seq::<u8>::empty());
    }

    /// A push onto a ring that is not full appends the byte to the contents
    /// and leaves the read cursor alone.
    pub proof fn lemma_push(self, byte: u8)
        requires
            self.wf(),
            !self.is_full(),
        ensures
            self.push(byte).wf(),
            self.push(byte).capacity() == self.capacity(),
            self.push(byte).read == self.read,
            self.push(byte).contents() == self.contents().push(byte),
            !self.push(byte).is_empty(),
    {
        let after = self.push(byte);
        let n = self.slots.len();
        lemma_wrap_next(self.write, n);
        self.lemma_len();
        after.lemma_len();
        assert(after.len() == self.len() + 1);
        assert forall|i: int| 0 <= i < after.len() implies after.contents()[i]
            == self.contents().push(byte)[i] by {
            self.lemma_slot(i);
            after.lemma_slot(i);
        }
        assert(after.contents() =~= self.contents().push(byte));
    }

    /// A pop from a ring that is not empty returns the oldest byte, removes
    /// it from the contents, leaves the write cursor and the slots alone, and
    /// makes room for a push.
    pub proof fn lemma_pop(self)
        requires
            self.wf(),
            !self.is_empty(),
        ensures
            self.pop().wf(),
            self.pop().capacity() == self.capacity(),
            self.pop().write == self.write,
            self.pop().slots == self.slots,
            self.front() == self.contents().first(),
            self.pop().contents() == self.contents().drop_first(),
            !self.pop().is_full(),
    {
        let after = self.pop();
        let n = self.slots.len();
        lemma_wrap_next(self.read, n);
        self.lemma_len();
        after.lemma_len();
        assert(after.len() == self.len() - 1);
        self.lemma_slot(0);
        assert forall|i: int| 0 <= i < after.len() implies after.contents()[i]
            == self.contents().drop_first()[i] by {
            self.lemma_slot(i + 1);
            after.lemma_slot(i);
        }
        assert(after.contents() =~= self.contents().drop_first());
    }

    /// Bytes that fit are all accepted: they join the contents in the order
    /// in which they were offered, and the read cursor stays.
    pub proof fn lemma_push_all(self, bytes: Seq<u8>)
        requires
            self.wf(),
            self.len() + bytes.len() <= self.capacity(),
        ensures
            self.push_all(bytes).wf(),
            self.push_all(bytes).capacity() == self.capacity(),
            self.push_all(bytes).read == self.read,
            self.push_all(bytes).contents() == self.contents() + bytes,
        decreases bytes.len(),
    {
        if bytes.len() == 0 {
            assert(self.contents() + bytes =~= self.contents());
        } else {
            let before = self.push_all(bytes.drop_last());
            self.lemma_push_all(bytes.drop_last());
            self.lemma_len();
            before.lemma_len();
            before.lemma_push(bytes.last());
            assert((self.contents() + bytes.drop_last()).push(bytes.last()) =~= self.contents()
                + bytes);
        }
    }

    /// Pops return the contents from the oldest byte on, and stop when the
    /// ring is empty.
    pub proof fn lemma_drain(self, count: nat)
        requires
            self.wf(),
        ensures
            count <= self.len() ==> self.drain(count) == self.contents().take(count as int),
            count >= self.len() ==> self.drain(count) == self.contents(),
        decreases count,
    {
        self.lemma_len();
        if count == 0 || self.is_empty() {
            assert(self.contents().take(0) =~= Seq::<u8>::empty());
            assert(self.is_empty() ==> self.contents() =~= Seq::<u8>::empty());
        } else {
            let rest = (count - 1) as nat;
            self.lemma_pop();
            self.pop().lemma_len();
            self.pop().lemma_drain(rest);
            let all = self.contents();
            if count <= self.len() {
                assert(seq![all.first()] + all.drop_first().take(rest as int) =~= all.take(
                    count as int,
                ));
            } else {
                assert(seq![all.first()] + all.drop_first() =~= all);
            }
        }
    }

    /// First in, first out: bytes pushed onto an empty ring, with no pop in
    /// between, are popped in exactly the order of the pushes.
    pub proof fn lemma_fifo(self, bytes: Seq<u8>)
        requires
            self.wf(),
            self.is_empty(),
            bytes.len() <= self.capacity(),
        ensures
            self.push_all(bytes).drain(bytes.len()) == bytes,
    {
        self.lemma_len();
        self.lemma_push_all(bytes);
        let filled = self.push_all(bytes);
        filled.lemma_len();
        filled.lemma_drain(bytes.len());
        assert(self.contents() + bytes =~= bytes);
    }

    /// After as many pushes as the capacity, onto an empty ring, the ring is
    /// full and not empty and refuses the next push; after one pop it accepts
    /// a push again.
    pub proof fn lemma_fill(self, bytes: Seq<u8>, extra: u8)
        requires
            self.wf(),
            self.is_empty(),
            bytes.len() == self.capacity(),
        ensures
            self.push_all(bytes).is_full(),
            !self.push_all(bytes).is_empty(),
            self.push_all(bytes).try_push(extra) == self.push_all(bytes),
            !self.push_all(bytes).pop().is_full(),
            self.push_all(bytes).pop().try_push(extra).contents() == bytes.drop_first().push(extra),
    {
        self.lemma_len();
        self.lemma_push_all(bytes);
        let filled = self.push_all(bytes);
        filled.lemma_len();
        assert(self.contents() + bytes =~= bytes);
        filled.lemma_pop();
        filled.pop().lemma_push(extra);
    }
}

/// One access to the ring: by the producer or by the consumer.
pub enum RingOp {
    /// The producer offers a byte.
    Push(u8),
    /// The consumer asks for a byte.
    Pop,
}

/// What a series of accesses has done to a ring.
pub struct RingRun {
    /// The ring after the accesses.
    pub ring: Ring,
    /// The bytes that were accepted, in the order of the pushes.
    pub accepted: Seq<u8>,
    /// The bytes that were handed out, in the order of the pops.
    pub popped: Seq<u8>,
}

impl Ring {
    /// Performs `ops` one after the other, in any mixture of pushes and pops.
    pub open spec fn run(self, ops: Seq<RingOp>) -> RingRun
        decreases ops.len(),
    {
        if ops.len() == 0 {
            RingRun { ring: self, accepted: Seq::empty(), popped: Seq::empty() }
        } else {
            let before = self.run(ops.drop_last());
            match ops.last() {
                RingOp::Push(byte) => if before.ring.is_full() {
                    before
                } else {
                    RingRun {
                        ring: before.ring.push(byte),
                        accepted: before.accepted.push(byte),
                        popped: before.popped,
                    }
                },
                RingOp::Pop => if before.ring.is_empty() {
                    before
                } else {
                    RingRun {
                        ring: before.ring.pop(),
                        accepted: before.accepted,
                        popped: before.popped.push(before.ring.front()),
                    }
                },
            }
        }
    }

    /// However pushes and pops are interleaved, no byte is lost, duplicated
    /// or reordered: what was handed out followed by what still waits is what
    /// waited at the start followed by what was accepted.
    pub proof fn lemma_run_conserves(self, ops: Seq<RingOp>)
        requires
            self.wf(),
        ensures
            self.run(ops).ring.wf(),
            self.run(ops).ring.capacity() == self.capacity(),
            self.run(ops).popped + self.run(ops).ring.contents() == self.contents() + self.run(
                ops,
            ).accepted,
        decreases ops.len(),
    {
        if ops.len() == 0 {
            assert(Seq::<u8>::empty() + self.contents() =~= self.contents() + Seq::<u8>::empty());
        } else {
            let before = self.run(ops.drop_last());
            let after = self.run(ops);
            self.lemma_run_conserves(ops.drop_last());
            match ops.last() {
                RingOp::Push(byte) => {
                    if !before.ring.is_full() {
                        before.ring.lemma_push(byte);
                        assert(before.popped + before.ring.contents().push(byte) =~= (before.popped
                            + before.ring.contents()).push(byte));
                        assert((self.contents() + before.accepted).push(byte) =~= self.contents()
                            + before.accepted.push(byte));
                    }
                },
                RingOp::Pop => {
                    if !before.ring.is_empty() {
                        before.ring.lemma_pop();
                        before.ring.lemma_len();
                        let waiting = before.ring.contents();
                        assert(before.popped.push(waiting.first()) + waiting.drop_first()
                            =~= before.popped + waiting);
                    }
                },
            }
        }
    }
}

} // verus!
