//! Multi-slot overwriting channel: a ring buffer with one writer and any
//! number of independent readers, each holding a private cursor.  The writer
//! never blocks; a reader that falls more than `capacity` slots behind skips
//! the lost samples and resynchronizes to the oldest value still present.
//!
//! Sequence counters wrap at `usize` width; all cursor arithmetic is done
//! with wrapping operations, mirrored exactly by the spec functions below.

use vstd::prelude::*;
use vstd::arithmetic::div_mod::{
    lemma_add_mod_noop, lemma_fundamental_div_mod_converse_mod, lemma_mod_bound, lemma_small_mod,
};

verus! {

/// One more than the largest value a sequence counter can hold: counters
/// wrap at this modulus.
pub open spec fn seq_limit() -> nat {
    usize::MAX as nat + 1
}

/// Successor of a sequence counter, wrapping at `seq_limit()`.
pub open spec fn seq_next(w: nat) -> nat {
    if w + 1 == seq_limit() {
        0
    } else {
        w + 1
    }
}

/// Distance from a reader cursor `r` up to the writer counter `w`, modulo
/// counter wrap.
pub open spec fn seq_delta(w: nat, r: nat) -> nat {
    if w >= r {
        (w - r) as nat
    } else {
        ((w + seq_limit()) - r) as nat
    }
}

/// The counter value `back` steps behind `w`, modulo counter wrap.
pub open spec fn seq_back(w: nat, back: nat) -> nat {
    if w >= back {
        (w - back) as nat
    } else {
        ((w + seq_limit()) - back) as nat
    }
}

/// Buffer contents and counter after one write of `value` to a ring whose
/// slots are `buf` and whose write counter is `w`.
pub open spec fn ring_write<T>(buf: Seq<T>, w: nat, value: T) -> (Seq<T>, nat) {
    if buf.len() == 0 {
        (buf, w)
    } else {
        (buf.update((w % buf.len()) as int, value), seq_next(w))
    }
}

/// Buffer contents and counter after writing every element of `vs` in order.
pub open spec fn ring_write_all<T>(buf: Seq<T>, w: nat, vs: Seq<T>) -> (Seq<T>, nat)
    decreases vs.len(),
{
    if vs.len() == 0 {
        (buf, w)
    } else {
        let prev = ring_write_all(buf, w, vs.drop_last());
        ring_write(prev.0, prev.1, vs.last())
    }
}

/// Value delivered and new cursor for one read against a ring with slots
/// `buf` and committed counter `w`, from a reader whose cursor is `r`.
/// A reader more than `buf.len()` slots behind first jumps forward to the
/// oldest slot that has not been overwritten.
pub open spec fn ring_read<T>(buf: Seq<T>, w: nat, r: nat) -> (Option<T>, nat) {
    let cap = buf.len();
    if seq_delta(w, r) == 0 {
        (None, r)
    } else {
        let rr = if seq_delta(w, r) > cap {
            seq_back(w, cap)
        } else {
            r
        };
        (Some(buf[(rr % cap) as int]), seq_next(rr))
    }
}

/// Shared side of an overwriting channel: the slots and the write / written
/// sequence counters.  `written` is published only after the slot is filled;
/// with a single, non-reentrant writer the two counters agree between calls,
/// which is what `wf` records.
pub struct OverwritingData<T> {
    buffer: Vec<T>,
    write: usize,
    written: usize,
}

impl<T: Copy> OverwritingData<T> {
    /// The slot contents.
    pub closed spec fn buf(&self) -> Seq<T> {
        self.buffer@
    }

    /// The committed sequence counter: how many writes have been published,
    /// modulo `seq_limit()`.
    pub closed spec fn seq_no(&self) -> nat {
        self.written as nat
    }

    /// Number of slots.
    pub open spec fn capacity_spec(&self) -> nat {
        self.buf().len()
    }

    /// Between calls the write counter and the committed counter agree.
    pub closed spec fn wf(&self) -> bool {
        self.write == self.written
    }

    /// A channel whose slots are the elements of `vec`; nothing is committed
    /// yet.
    pub fn new(vec: Vec<T>) -> (r: Self)
        ensures
            r.wf(),
            r.buf() == vec@,
            r.seq_no() == 0,
    {
        Self { buffer: vec, write: 0, written: 0 }
    }

    pub fn capacity(&self) -> (r: usize)
        ensures
            r == self.capacity_spec(),
    {
        self.buffer.len()
    }

    /// Preset both sequence counters, as they would stand after `value`
    /// writes of a long-running producer — counters wrap at the top of
    /// `usize` and the channel must keep working across the wrap.  The slot
    /// contents are unchanged.
    pub fn set_sequence(&mut self, value: usize)
        ensures
            final(self).wf(),
            final(self).buf() == old(self).buf(),
            final(self).seq_no() == value,
    {
        self.write = value;
        self.written = value;
    }

    /// Append `value` at the slot the write counter points to, then publish
    /// the incremented counter.  A zero-capacity channel ignores writes.
    pub fn write(&mut self, value: T)
        requires
            old(self).wf(),
        ensures
            final(self).wf(),
            final(self).buf() == ring_write(old(self).buf(), old(self).seq_no(), value).0,
            final(self).seq_no() == ring_write(old(self).buf(), old(self).seq_no(), value).1,
    {
        let size = self.buffer.len();
        if size > 0 {
            let write = self.write;
            let next_write = write.wrapping_add(1);
            self.write = next_write;
            self.buffer[write % size] = value;
            self.written = next_write;
        }
    }
}

impl<T: Copy + Default> OverwritingData<T> {
    /// A channel of `size` slots, all holding one default value.
    pub fn sized(size: usize) -> (r: Self)
        ensures
            r.wf(),
            r.capacity_spec() == size,
            r.seq_no() == 0,
            forall|i: int, j: int|
                #![trigger r.buf()[i], r.buf()[j]]
                0 <= i < size && 0 <= j < size ==> r.buf()[i] == r.buf()[j],
    {
        let value = T::default();
        let mut vec: Vec<T> = Vec::new();
        let mut i: usize = 0;
        while i < size
            invariant
                vec@.len() == i,
                i <= size,
                forall|j: int| 0 <= j < i ==> vec@[j] == value,
            decreases size - i,
        {
            vec.push(value);
            i = i + 1;
        }
        Self::new(vec)
    }
}

/// A reader of an overwriting channel: a private cursor holding the next
/// sequence number this reader expects.
pub struct OverwritingDataSource<T> {
    read: usize,
    _marker: core::marker::PhantomData<T>,
}

impl<T: Copy> OverwritingDataSource<T> {
    /// The next sequence number this reader expects.
    pub closed spec fn cursor(&self) -> nat {
        self.read as nat
    }

    /// A fresh reader, synchronized to the present write position of `ring`:
    /// it sees only values written after its creation.
    pub fn new(ring: &OverwritingData<T>) -> (r: Self)
        requires
            ring.wf(),
        ensures
            r.cursor() == ring.seq_no(),
    {
        Self { read: ring.write, _marker: core::marker::PhantomData }
    }

    /// Deliver the oldest unread value, or nothing when the reader has seen
    /// everything committed.  A reader that has fallen behind by more than
    /// the capacity first skips to the oldest slot still intact.
    pub fn read(&mut self, ring: &OverwritingData<T>) -> (r: Option<T>)
        requires
            ring.wf(),
            ring.capacity_spec() == 0 ==> old(self).cursor() == ring.seq_no(),
        ensures
            r == ring_read(ring.buf(), ring.seq_no(), old(self).cursor()).0,
            final(self).cursor() == ring_read(ring.buf(), ring.seq_no(), old(self).cursor()).1,
    {
        let written = ring.written;
        let delta = written.wrapping_sub(self.read);
        if delta == 0 {
            return None;
        }
        let size = ring.buffer.len();
        if delta > size {
            self.read = written.wrapping_sub(size);
        }
        let value = ring.buffer[self.read % size];
        self.read = self.read.wrapping_add(1);
        Some(value)
    }

    /// Deliver the most recently committed value, ignoring the cursor.  Used
    /// where only the newest sample matters.  Before the first write this
    /// yields whatever the youngest slot was initialized with.
    pub fn read_latest(&self, ring: &OverwritingData<T>) -> (r: T)
        requires
            ring.wf(),
            ring.capacity_spec() > 0,
        ensures
            r == ring.buf()[(seq_back(ring.seq_no(), 1) % ring.capacity_spec()) as int],
    {
        let written = ring.written;
        ring.buffer[written.wrapping_sub(1) % ring.buffer.len()]
    }
}

impl<T: Copy> Clone for OverwritingDataSource<T> {
    /// The clone continues at the same cursor, delivering the same values
    /// as the original from here on.  A reader that should instead start at
    /// the channel's present write position is made with `new`, which
    /// re-derives the cursor from the channel.
    fn clone(&self) -> (r: Self)
        ensures
            r.cursor() == self.cursor(),
    {
        Self { read: self.read, _marker: core::marker::PhantomData }
    }
}

/// Adding `d` steps to a counter moves it to a different slot as long as
/// fewer than `cap` steps were taken.
proof fn lemma_slot_distinct(a: int, d: int, cap: int)
    requires
        cap > 0,
        0 <= a,
        0 < d < cap,
    ensures
        (a + d) % cap != a % cap,
{
    lemma_mod_bound(a, cap);
    lemma_small_mod(d as nat, cap as nat);
    lemma_add_mod_noop(a, d, cap);
    let r = a % cap;
    if r + d < cap {
        lemma_small_mod((r + d) as nat, cap as nat);
    } else {
        lemma_fundamental_div_mod_converse_mod(r + d, cap, 1, r + d - cap);
    }
}

/// After writing all of `vs` without wrapping the sequence counter, the
/// counter has advanced by `vs.len()` and the last `cap` values written are
/// intact, each in the slot its sequence number selects.
pub proof fn lemma_ring_write_all<T>(buf: Seq<T>, w: nat, vs: Seq<T>)
    requires
        buf.len() > 0,
        w + vs.len() < seq_limit(),
    ensures
        ring_write_all(buf, w, vs).1 == w + vs.len(),
        ring_write_all(buf, w, vs).0.len() == buf.len(),
        forall|k: int|
            0 <= k < vs.len() && k + buf.len() >= vs.len() ==> ring_write_all(buf, w, vs).0[(w + k)
                % (buf.len() as int)] == vs[k],
    decreases vs.len(),
{
    if vs.len() == 0 {
    } else {
        lemma_ring_write_all(buf, w, vs.drop_last());
        let prev = ring_write_all(buf, w, vs.drop_last());
        let e = ring_write_all(buf, w, vs);
        let n = vs.len() as int;
        let cap = buf.len() as int;
        lemma_mod_bound(w + n - 1, cap);
        assert forall|k: int| 0 <= k < n && k + cap >= n implies e.0[(w + k) % cap] == vs[k] by {
            lemma_mod_bound(w + k, cap);
            if k < n - 1 {
                lemma_slot_distinct(w + k, n - 1 - k, cap);
                assert(vs.drop_last()[k] == vs[k]);
            }
        }
    }
}

/// Law: for any sequence of `N` writes to a fresh overwriting channel of
/// capacity `C` followed by reads, if `N <= C` a reader whose cursor starts
/// at zero receives exactly the `N` values in write order, and afterwards
/// nothing.
pub proof fn lemma_reads_in_order_no_loss<T>(buf: Seq<T>, vs: Seq<T>)
    requires
        0 < buf.len(),
        vs.len() <= buf.len(),
        vs.len() < seq_limit(),
    ensures
        forall|j: int|
            0 <= j < vs.len() ==> ring_read(
                ring_write_all(buf, 0, vs).0,
                ring_write_all(buf, 0, vs).1,
                j as nat,
            ) == (Some(vs[j]), (j + 1) as nat),
        ring_read(ring_write_all(buf, 0, vs).0, ring_write_all(buf, 0, vs).1, vs.len()) == (
            None::<T>,
            vs.len(),
        ),
{
    lemma_ring_write_all(buf, 0, vs);
    let e = ring_write_all(buf, 0, vs);
    let n = vs.len() as int;
    assert forall|j: int| 0 <= j < n implies ring_read(e.0, e.1, j as nat) == (
        Some(vs[j]),
        (j + 1) as nat,
    ) by {
        lemma_small_mod(j as nat, buf.len());
    }
}

/// Law: for any `N > C` writes to a fresh overwriting channel of capacity
/// `C`, a reader whose cursor starts at zero receives exactly the last `C`
/// values in write order — the first read resynchronizes the cursor past the
/// overwritten samples — each value exactly once, and afterwards nothing.
pub proof fn lemma_reads_last_capacity_after_overrun<T>(buf: Seq<T>, vs: Seq<T>)
    requires
        0 < buf.len() < vs.len(),
        vs.len() < seq_limit(),
    ensures
        ring_read(ring_write_all(buf, 0, vs).0, ring_write_all(buf, 0, vs).1, 0) == (
            Some(vs[vs.len() - buf.len()]),
            (vs.len() - buf.len() + 1) as nat,
        ),
        forall|r: int|
            vs.len() - buf.len() + 1 <= r < vs.len() ==> ring_read(
                ring_write_all(buf, 0, vs).0,
                ring_write_all(buf, 0, vs).1,
                r as nat,
            ) == (Some(vs[r]), (r + 1) as nat),
        ring_read(ring_write_all(buf, 0, vs).0, ring_write_all(buf, 0, vs).1, vs.len()) == (
            None::<T>,
            vs.len(),
        ),
{
    lemma_ring_write_all(buf, 0, vs);
    let e = ring_write_all(buf, 0, vs);
    let n = vs.len() as int;
    let cap = buf.len() as int;
    assert(seq_back(e.1, buf.len()) == (n - cap) as nat);
    assert forall|r: int| n - cap + 1 <= r < n implies ring_read(e.0, e.1, r as nat) == (
        Some(vs[r]),
        (r + 1) as nat,
    ) by {
    }
}

} // verus!
