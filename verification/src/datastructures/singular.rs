//! One-slot "latest value" channel: the writer overwrites the single slot,
//! and every reader always sees the most recently committed value.  Used for
//! control input and other data where only the newest sample matters.

use vstd::prelude::*;

verus! {

/// The latest value after writing every element of `vs` in order over an
/// initial slot state `slot`.
pub open spec fn singular_write_all<T>(slot: Option<T>, vs: Seq<T>) -> Option<T>
    decreases vs.len(),
{
    if vs.len() == 0 {
        slot
    } else {
        singular_write_all(Some(vs[0]), vs.drop_first())
    }
}

/// Shared side of a singular channel: one slot, empty until the first write.
pub struct SingularData<T> {
    value: Option<T>,
}

impl<T: Copy> SingularData<T> {
    /// The most recently committed value, if any write has happened yet.
    pub closed spec fn latest(&self) -> Option<T> {
        self.value
    }

    /// Overwrite the slot with `value` and commit it.
    pub fn write(&mut self, value: T)
        ensures
            final(self).latest() == Some(value),
    {
        self.value = Some(value);
    }
}

impl<T: Copy> Default for SingularData<T> {
    /// An empty channel: reads yield nothing until the first write.
    fn default() -> (r: Self)
        ensures
            r.latest() is None,
    {
        Self { value: None }
    }
}

/// A reader of a singular channel.  It holds no cursor: every read yields
/// the latest committed value, however many reads happened in between.
pub struct SingularDataSource<T> {
    _marker: core::marker::PhantomData<T>,
}

impl<T> Clone for SingularDataSource<T> {
    fn clone(&self) -> Self {
        Self { _marker: core::marker::PhantomData }
    }
}

impl<T: Copy> SingularDataSource<T> {
    pub fn new(ring: &SingularData<T>) -> (r: Self) {
        Self { _marker: core::marker::PhantomData }
    }

    /// Law: after writes of `v1, ..., vk`, any read returns exactly `vk`,
    /// regardless of how many reads occurred between the writes; before the
    /// first write it returns nothing.
    pub fn read(&self, ring: &SingularData<T>) -> (r: Option<T>)
        ensures
            r == ring.latest(),
    {
        match &ring.value {
            Some(v) => Some(*v),
            None => None,
        }
    }
}

/// Law: writing any non-empty sequence of values leaves exactly the last one
/// in the slot, whatever the slot held before.
pub proof fn lemma_singular_latest<T>(slot: Option<T>, vs: Seq<T>)
    requires
        vs.len() > 0,
    ensures
        singular_write_all(slot, vs) == Some(vs.last()),
    decreases vs.len(),
{
    if vs.len() > 1 {
        lemma_singular_latest(Some(vs[0]), vs.drop_first());
        assert(vs.drop_first().last() == vs.last());
    } else {
        assert(vs.drop_first().len() == 0);
        assert(singular_write_all(Some(vs[0]), vs.drop_first()) == Some(vs[0]));
        assert(vs.last() == vs[0]);
    }
}

/// Channel for radio signal-strength words and similar small scalar values;
/// it behaves exactly as the general singular channel.
pub type U16Data<T> = SingularData<T>;

/// Reader counterpart of [`U16Data`].
pub type U16DataSource<T> = SingularDataSource<T>;

} // verus!
