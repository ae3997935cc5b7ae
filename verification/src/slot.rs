//! The handle slot: a container that is either empty or holds the handle of
//! the one running helper process.

use vstd::prelude::*;

verus! {

/// A single-slot container for a process handle of type `H`.
///
/// The slot is meant to be shared behind one lock by the startup path, which
/// fills it, and the shutdown path, which empties it. Every operation is a
/// swap of the content and nothing more.
#[derive(Debug)]
pub struct HandleSlot<H> {
    content: Option<H>,
}

impl<H> View for HandleSlot<H> {
    type V = Option<H>;

    closed spec fn view(&self) -> Option<H> {
        self.content
    }
}

impl<H> HandleSlot<H> {
    /// An empty slot.
    pub fn new() -> (slot: Self)
        ensures
            slot@ == None::<H>,
    {
        HandleSlot { content: None }
    }

    /// Stores `handle`. Whatever the slot held before is discarded.
    pub fn put(&mut self, handle: H)
        ensures
            final(self)@ == Some(handle),
    {
        self.content = Some(handle);
    }

    /// Removes the stored handle and returns it; on an empty slot returns
    /// `None` and changes nothing.
    pub fn take(&mut self) -> (taken: Option<H>)
        ensures
            taken == old(self)@,
            final(self)@ == None::<H>,
    {
        self.content.take()
    }

    /// Whether a handle is stored.
    pub fn is_occupied(&self) -> (occupied: bool)
        ensures
            occupied == (self@ is Some),
    {
        self.content.is_some()
    }

    /// `put` through a lock: `access` is the slot if its lock could be
    /// acquired. Without it the call does nothing and `handle` is let go.
    pub fn put_guarded(access: Option<&mut HandleSlot<H>>, handle: H)
        ensures
            access matches Some(slot) ==> final(slot)@ == Some(handle),
    {
        match access {
            Some(slot) => slot.put(handle),
            None => {},
        }
    }

    /// `take` through a lock: `access` is the slot if its lock could be
    /// acquired. Without it the call does nothing and returns `None`.
    pub fn take_guarded(access: Option<&mut HandleSlot<H>>) -> (taken: Option<H>)
        ensures
            match access {
                Some(slot) => taken == slot@ && final(slot)@ == None::<H>,
                None => taken == None::<H>,
            },
    {
        match access {
            Some(slot) => slot.take(),
            None => None,
        }
    }

    /// Performs one operation and returns what it hands out: the stored
    /// handle for a `Take` on an occupied slot, `None` otherwise.
    pub fn apply(&mut self, op: SlotOp<H>) -> (returned: Option<H>)
        ensures
            (final(self)@, returned) == slot_step(old(self)@, op),
    {
        match op {
            SlotOp::Put(handle) => {
                self.put(handle);
                None
            },
            SlotOp::Take => self.take(),
        }
    }
}

/// One call on the slot.
#[derive(Debug)]
pub enum SlotOp<H> {
    /// `put` with the given handle.
    Put(H),
    /// `take`.
    Take,
}

/// The effect of one operation on a slot holding `state`: the content
/// afterwards, and what the operation returns.
pub open spec fn slot_step<H>(state: Option<H>, op: SlotOp<H>) -> (Option<H>, Option<H>) {
    match op {
        SlotOp::Put(handle) => (Some(handle), None),
        SlotOp::Take => (None, state),
    }
}

/// The content of a slot that started as `init` after the operations `ops`,
/// performed in order.
pub open spec fn state_after<H>(init: Option<H>, ops: Seq<SlotOp<H>>) -> Option<H>
    decreases ops.len(),
{
    if ops.len() == 0 {
        init
    } else {
        slot_step(state_after(init, ops.drop_last()), ops.last()).0
    }
}

/// What the operation at position `i` of `ops` returns, on a slot that
/// started as `init`.
pub open spec fn returned_at<H>(init: Option<H>, ops: Seq<SlotOp<H>>, i: int) -> Option<H>
    recommends
        0 <= i < ops.len(),
{
    slot_step(state_after(init, ops.take(i)), ops[i]).1
}

/// Whether every operation of `ops` is a `Take`.
pub open spec fn only_takes<H>(ops: Seq<SlotOp<H>>) -> bool {
    forall|i: int| 0 <= i < ops.len() ==> ops[i] is Take
}

/// Whether the handles that `ops` store, and the one in `init` if there is
/// one, are pairwise different.
pub open spec fn handles_distinct<H>(init: Option<H>, ops: Seq<SlotOp<H>>) -> bool {
    &&& forall|a: int, b: int|
        0 <= a < b < ops.len() && ops[a] is Put && ops[b] is Put ==> ops[a]->Put_0 != ops[b]->Put_0
    &&& forall|a: int| 0 <= a < ops.len() && ops[a] is Put ==> init != Some(ops[a]->Put_0)
}

/// A take returns what the operation directly before it left in the slot:
/// the handle of a `Put`, nothing after a `Take`, and the initial content
/// when it is the first operation.
pub proof fn lemma_take_returns_latest<H>(init: Option<H>, ops: Seq<SlotOp<H>>, j: int)
    requires
        0 <= j < ops.len(),
        ops[j] is Take,
    ensures
        j == 0 ==> returned_at(init, ops, j) == init,
        j > 0 && ops[j - 1] is Take ==> returned_at(init, ops, j) is None,
        j > 0 && ops[j - 1] is Put ==> returned_at(init, ops, j) == Some(ops[j - 1]->Put_0),
{
    let before = ops.take(j);
    if j > 0 {
        assert(before.last() == ops[j - 1]);
    }
}

/// No stored handle is handed out twice: when two takes both return a
/// handle, the later one returns the handle of a `Put` that stands between
/// the two, so the earlier take cannot have returned that stored handle.
pub proof fn lemma_no_duplication<H>(init: Option<H>, ops: Seq<SlotOp<H>>, i: int, j: int)
    requires
        0 <= i < j < ops.len(),
        ops[i] is Take,
        ops[j] is Take,
        returned_at(init, ops, j) is Some,
    ensures
        i < j - 1,
        ops[j - 1] is Put,
        returned_at(init, ops, j) == Some(ops[j - 1]->Put_0),
{
    lemma_take_returns_latest(init, ops, j);
}

/// Where all stored handles differ, no two takes return the same handle.
pub proof fn lemma_distinct_handles_taken_once<H>(
    init: Option<H>,
    ops: Seq<SlotOp<H>>,
    i: int,
    j: int,
)
    requires
        handles_distinct(init, ops),
        0 <= i < j < ops.len(),
        ops[i] is Take,
        ops[j] is Take,
        returned_at(init, ops, i) is Some,
    ensures
        returned_at(init, ops, i) != returned_at(init, ops, j),
{
    lemma_take_returns_latest(init, ops, i);
    lemma_take_returns_latest(init, ops, j);
}

/// Taking from an empty slot any number of times returns `None` each time
/// and leaves the slot empty.
pub proof fn lemma_take_on_empty_is_noop<H>(ops: Seq<SlotOp<H>>)
    requires
        only_takes(ops),
    ensures
        state_after(None::<H>, ops) == None::<H>,
        forall|i: int| 0 <= i < ops.len() ==> returned_at(None::<H>, ops, i) == None::<H>,
    decreases ops.len(),
{
    assert forall|i: int| 0 <= i < ops.len() implies returned_at(None::<H>, ops, i) == None::<H> by {
        lemma_take_returns_latest(None::<H>, ops, i);
    }
    if ops.len() > 0 {
        lemma_take_on_empty_is_noop(ops.drop_last());
    }
}

/// A take that directly follows `put(handle)` returns exactly `handle`,
/// whatever happened before the put.
pub proof fn lemma_take_after_put<H>(init: Option<H>, ops: Seq<SlotOp<H>>, i: int, handle: H)
    requires
        0 <= i,
        i + 1 < ops.len(),
        ops[i] == SlotOp::Put(handle),
        ops[i + 1] is Take,
    ensures
        returned_at(init, ops, i + 1) == Some(handle),
        state_after(init, ops.take(i + 2)) == None::<H>,
{
    lemma_take_returns_latest(init, ops, i + 1);
    assert(ops.take(i + 2).last() == ops[i + 1]);
}

} // verus!
