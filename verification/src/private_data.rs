//! The store that keeps plugins' private data between the calls of the
//! directory server.
//!
//! A value is committed to the store once and found again by the address
//! that the commit returned. An address is never given out twice, so one
//! that was released can never reach another value.

use vstd::prelude::*;
use crate::error::PBlockError;

verus! {

/// The values that were committed and not yet released, each under its
/// address.
pub struct PrivateStore<T> {
    cells: Vec<Option<T>>,
}

impl<T> PrivateStore<T> {
    /// The values that are live in the store, by address.
    pub closed spec fn live(&self) -> Map<usize, T> {
        Map::new(
            |a: usize| 1 <= a <= self.cells.len() && self.cells[a - 1] is Some,
            |a: usize| self.cells[a - 1]->0,
        )
    }

    /// How many values were ever committed to the store.
    pub closed spec fn allocated(&self) -> nat {
        self.cells.len() as nat
    }

    /// What `recover` finds at `address`.
    pub open spec fn found(&self, address: usize) -> Option<T> {
        if self.live().contains_key(address) {
            Some(self.live()[address])
        } else {
            None
        }
    }

    /// Every live address lies among those that were given out, and none is
    /// null.
    pub proof fn lemma_live_was_allocated(&self, address: usize)
        requires
            self.live().contains_key(address),
        ensures
            1 <= address <= self.allocated(),
    {
    }

    /// The address that the next commit will give is not live.
    pub proof fn lemma_next_is_free(&self)
        requires
            self.allocated() < usize::MAX,
        ensures
            !self.live().contains_key((self.allocated() + 1) as usize),
    {
    }

    /// A store that holds nothing.
    pub fn new() -> (store: Self)
        ensures
            store.live() == Map::<usize, T>::empty(),
            store.allocated() == 0,
    {
        let store = PrivateStore { cells: Vec::new() };
        assert(store.live() =~= Map::<usize, T>::empty());
        store
    }

    /// Whether another value can be committed: the addresses are not used
    /// up.
    pub fn has_room(&self) -> (room: bool)
        ensures
            room == (self.allocated() < usize::MAX),
    {
        self.cells.len() < usize::MAX
    }

    /// Moves `value` into the store and returns its address, which is not
    /// null and was never given out before. Nothing else in the store
    /// changes.
    pub fn commit(&mut self, value: T) -> (address: usize)
        requires
            old(self).allocated() < usize::MAX,
        ensures
            address == old(self).allocated() + 1,
            !old(self).live().contains_key(address),
            final(self).live() == old(self).live().insert(address, value),
            final(self).allocated() == old(self).allocated() + 1,
    {
        self.cells.push(Some(value));
        let address: usize = self.cells.len();
        assert(self.live() =~= old(self).live().insert(address, value));
        address
    }

    /// The value that was committed under `address`, as long as it has not
    /// been released; `None` for any other address.
    pub fn recover(&self, address: usize) -> (value: Option<&T>)
        ensures
            value matches Some(v) ==> self.found(address) == Some(*v),
            value is None <==> self.found(address) is None,
    {
        if address == 0 || address > self.cells.len() {
            None
        } else {
            self.cells[address - 1].as_ref()
        }
    }

    /// Releases the value under `address`. An address that holds no live
    /// value, because it was never given out or was released before, is
    /// refused with `DestroyFail`, and the store stays as it is.
    pub fn release(&mut self, address: usize) -> (done: Result<(), PBlockError>)
        ensures
            old(self).live().contains_key(address) ==> done == Ok::<(), PBlockError>(())
                && final(self).live() == old(self).live().remove(address),
            !old(self).live().contains_key(address) ==> done == Err::<(), PBlockError>(
                PBlockError::DestroyFail,
            ) && final(self).live() == old(self).live(),
            final(self).allocated() == old(self).allocated(),
    {
        if address == 0 || address > self.cells.len() {
            return Err(PBlockError::DestroyFail);
        }
        if self.cells[address - 1].is_none() {
            return Err(PBlockError::DestroyFail);
        }
        self.cells.set(address - 1, None);
        assert(self.live() =~= old(self).live().remove(address));
        Ok(())
    }
}

/// A value that was committed is found again under its address, unchanged,
/// and the commit changes nothing that is found under another address.
/// `before` and `after` are what is live before and after the commit.
pub proof fn lemma_recover_after_commit<T>(
    before: PrivateStore<T>,
    after: PrivateStore<T>,
    address: usize,
    value: T,
    other: usize,
)
    requires
        after.live() == before.live().insert(address, value),
        other != address,
    ensures
        after.found(address) == Some(value),
        after.found(other) == before.found(other),
{
}

/// A value is released once. After its release nothing is found under its
/// address, a second release of the address is refused and leaves the
/// store as it is, and no commit gives the address out again.
pub proof fn lemma_release_is_final<T>(
    before: PrivateStore<T>,
    after: PrivateStore<T>,
    address: usize,
)
    requires
        before.live().contains_key(address),
        after.live() == before.live().remove(address),
        after.allocated() >= before.allocated(),
    ensures
        after.found(address) is None,
        !after.live().contains_key(address),
        address != after.allocated() + 1,
        after.live().remove(address) == after.live(),
{
    before.lemma_live_was_allocated(address);
    assert(after.live().remove(address) =~= after.live());
}

} // verus!
