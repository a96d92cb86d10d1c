//! The table of host closures, kept on the host-execution thread.
//!
//! A handle is an identity. The closure behind it lives here and nowhere
//! else, is counted once for every holder of the handle, and is looked up
//! only where the dispatcher is about to call it. An identity is given out
//! once and never again.
use std::collections::HashMap;
use vstd::prelude::*;
use crate::envelope::CallbackHandle;

verus! {

broadcast use vstd::std_specs::hash::group_hash_axioms;

/// A closure and the number of holders of its handle.
pub struct Slot<C> {
    pub holders: usize,
    pub closure: C,
}

/// What a table is, to its contracts.
#[verifier::ext_equal]
pub struct TableState<C> {
    /// The closures that are registered, by the identity of their handle.
    pub slots: Map<u64, Slot<C>>,
    /// The identity the next handle gets.
    pub next_id: u64,
}

/// The closures that handles stand for.
pub struct CallbackTable<C> {
    slots: HashMap<u64, Slot<C>>,
    next_id: u64,
}

/// What became of a closure when a holder let go of its handle.
pub enum Released<C> {
    /// No closure is registered under the handle.
    Unknown,
    /// Other holders remain.
    Kept,
    /// The last holder let go: the closure leaves the table.
    Dropped(C),
}

impl<C> View for CallbackTable<C> {
    type V = TableState<C>;

    closed spec fn view(&self) -> TableState<C> {
        TableState { slots: self.slots@, next_id: self.next_id }
    }
}

impl<C> TableState<C> {
    /// Every registered closure has a holder, and an identity that was
    /// given out before.
    pub open spec fn wf(self) -> bool {
        forall|id: u64| #[trigger]
            self.slots.contains_key(id) ==> id < self.next_id && self.slots[id].holders > 0
    }
}

/// The table after `register(closure)`.
pub open spec fn spec_register<C>(state: TableState<C>, closure: C) -> TableState<C> {
    if state.next_id == u64::MAX {
        state
    } else {
        TableState {
            slots: state.slots.insert(state.next_id, Slot { holders: 1, closure }),
            next_id: (state.next_id + 1) as u64,
        }
    }
}

/// The table after `retain(handle)`.
pub open spec fn spec_retain<C>(state: TableState<C>, id: u64) -> TableState<C> {
    if state.slots.contains_key(id) && state.slots[id].holders < usize::MAX {
        TableState {
            slots: state.slots.insert(
                id,
                Slot { holders: (state.slots[id].holders + 1) as usize, ..state.slots[id] },
            ),
            ..state
        }
    } else {
        state
    }
}

/// The table after `release(handle)`.
pub open spec fn spec_release<C>(state: TableState<C>, id: u64) -> TableState<C> {
    if !state.slots.contains_key(id) {
        state
    } else if state.slots[id].holders > 1 {
        TableState {
            slots: state.slots.insert(
                id,
                Slot { holders: (state.slots[id].holders - 1) as usize, ..state.slots[id] },
            ),
            ..state
        }
    } else {
        TableState { slots: state.slots.remove(id), ..state }
    }
}

impl<C> CallbackTable<C> {
    /// An empty table.
    pub fn new() -> (t: CallbackTable<C>)
        ensures
            t@ == (TableState { slots: Map::<u64, Slot<C>>::empty(), next_id: 0 }),
            t@.wf(),
    {
        CallbackTable { slots: HashMap::new(), next_id: 0 }
    }

    /// Registers a closure for its first holder.
    ///
    /// The handle has an identity that no handle had before. Where all
    /// identities are used up nothing changes, and the closure comes back.
    pub fn register(&mut self, closure: C) -> (r: Result<CallbackHandle, C>)
        ensures
            final(self)@ == spec_register(old(self)@, closure),
            old(self)@.next_id < u64::MAX ==> r == Ok::<CallbackHandle, C>(
                CallbackHandle { id: old(self)@.next_id },
            ),
            old(self)@.next_id == u64::MAX ==> r == Err::<CallbackHandle, C>(closure),
            old(self)@.wf() ==> final(self)@.wf(),
    {
        if self.next_id == u64::MAX {
            return Err(closure);
        }
        let id = self.next_id;
        self.slots.insert(id, Slot { holders: 1, closure });
        self.next_id = id + 1;
        proof {
            if old(self)@.wf() {
                assert forall|k: u64| #[trigger] self@.slots.contains_key(k) implies k
                    < self@.next_id && self@.slots[k].holders > 0 by {
                    if k != id {
                        assert(old(self)@.slots.contains_key(k));
                    }
                }
            }
        }
        Ok(CallbackHandle { id })
    }

    /// Counts one more holder of the handle: a clone of it went to another
    /// thread. Returns whether the closure is registered and was counted.
    pub fn retain(&mut self, handle: CallbackHandle) -> (counted: bool)
        ensures
            final(self)@ == spec_retain(old(self)@, handle.id),
            counted == (old(self)@.slots.contains_key(handle.id) && old(
                self,
            )@.slots[handle.id].holders < usize::MAX),
            old(self)@.wf() ==> final(self)@.wf(),
    {
        match self.slots.remove(&handle.id) {
            None => {
                assert(self@.slots =~= old(self)@.slots);
                false
            },
            Some(slot) => {
                if slot.holders < usize::MAX {
                    self.slots.insert(
                        handle.id,
                        Slot { holders: slot.holders + 1, closure: slot.closure },
                    );
                    assert(self@.slots =~= spec_retain(old(self)@, handle.id).slots);
                    true
                } else {
                    self.slots.insert(handle.id, slot);
                    assert(self@.slots =~= old(self)@.slots);
                    false
                }
            },
        }
    }

    /// Counts one holder less. With the last holder the closure leaves the
    /// table and is handed out to be dropped.
    pub fn release(&mut self, handle: CallbackHandle) -> (r: Released<C>)
        ensures
            final(self)@ == spec_release(old(self)@, handle.id),
            match r {
                Released::Unknown => !old(self)@.slots.contains_key(handle.id),
                Released::Kept => old(self)@.slots.contains_key(handle.id) && old(
                    self,
                )@.slots[handle.id].holders > 1,
                Released::Dropped(c) => old(self)@.slots.contains_key(handle.id) && old(
                    self,
                )@.slots[handle.id].holders <= 1 && c == old(self)@.slots[handle.id].closure,
            },
            old(self)@.wf() ==> final(self)@.wf(),
    {
        match self.slots.remove(&handle.id) {
            None => {
                assert(self@.slots =~= old(self)@.slots);
                Released::Unknown
            },
            Some(slot) => {
                if slot.holders > 1 {
                    self.slots.insert(
                        handle.id,
                        Slot { holders: slot.holders - 1, closure: slot.closure },
                    );
                    assert(self@.slots =~= spec_release(old(self)@, handle.id).slots);
                    Released::Kept
                } else {
                    Released::Dropped(slot.closure)
                }
            },
        }
    }

    /// The closure the handle stands for, or `None` where none is registered
    /// under it.
    pub fn resolve(&self, handle: CallbackHandle) -> (c: Option<&C>)
        ensures
            match c {
                Some(closure) => self@.slots.contains_key(handle.id) && *closure
                    == self@.slots[handle.id].closure,
                None => !self@.slots.contains_key(handle.id),
            },
    {
        match self.slots.get(&handle.id) {
            Some(slot) => Some(&slot.closure),
            None => None,
        }
    }

    /// How many holders the handle has; 0 where no closure is registered
    /// under it.
    pub fn holders(&self, handle: CallbackHandle) -> (n: usize)
        ensures
            self@.slots.contains_key(handle.id) ==> n == self@.slots[handle.id].holders,
            !self@.slots.contains_key(handle.id) ==> n == 0,
    {
        match self.slots.get(&handle.id) {
            Some(slot) => slot.holders,
            None => 0,
        }
    }
}

/// A closure that is registered and released by its only holder leaves the
/// table as it was, but for the identity, which is spent: the handle stands
/// for nothing afterwards, and no later registration gets its identity.
pub proof fn lemma_identity_is_spent<C>(state: TableState<C>, closure: C, later: C)
    requires
        state.wf(),
        state.next_id < u64::MAX,
    ensures
        ({
            let id = state.next_id;
            let gone = spec_release(spec_register(state, closure), id);
            &&& gone.slots == state.slots
            &&& !gone.slots.contains_key(id)
            &&& gone.next_id == id + 1
            &&& !spec_register(gone, later).slots.contains_key(id)
        }),
{
    let id = state.next_id;
    let gone = spec_release(spec_register(state, closure), id);
    assert(!state.slots.contains_key(id));
    assert(gone.slots =~= state.slots);
}

/// A closure stays registered for as long as it has a holder: after
/// `holders` further holders were counted, it takes that many releases and
/// one more to drop it.
pub proof fn lemma_retain_then_release<C>(state: TableState<C>, id: u64)
    requires
        state.slots.contains_key(id),
        state.slots[id].holders < usize::MAX,
        state.slots[id].holders > 0,
    ensures
        spec_release(spec_retain(state, id), id) == state,
{
    assert(spec_release(spec_retain(state, id), id).slots =~= state.slots);
}

} // verus!
