//! The pending-file slot: holds the resolved file until it is asked for, and
//! gives it out once.

use vstd::prelude::*;
use crate::file::{option_view, FileView, ResolvedFile};

verus! {

/// One call of [`PendingFileSlot::take`] on a slot: what the caller gets and
/// what the slot holds afterwards.
pub open spec fn take_model(slot: Option<FileView>) -> (Option<FileView>, Option<FileView>) {
    (slot, None)
}

/// What a number of calls in a row give their callers, in order.
pub open spec fn deliveries(slot: Option<FileView>, calls: nat) -> Seq<Option<FileView>>
    decreases calls,
{
    if calls == 0 {
        Seq::empty()
    } else {
        seq![take_model(slot).0] + deliveries(take_model(slot).1, (calls - 1) as nat)
    }
}

/// Of two calls in a row, the first gets what the slot held and the second
/// gets nothing.
pub proof fn lemma_second_take_is_empty(slot: Option<FileView>)
    ensures
        take_model(slot).0 == slot,
        take_model(take_model(slot).1).0 is None,
{
}

/// However often the slot is asked, only the first call can get a file:
/// it gets what the slot held, and every later call gets nothing.
pub proof fn lemma_delivered_at_most_once(slot: Option<FileView>, calls: nat)
    ensures
        deliveries(slot, calls).len() == calls,
        calls > 0 ==> deliveries(slot, calls)[0] == slot,
        forall|i: int| 1 <= i < calls ==> (#[trigger] deliveries(slot, calls)[i]) is None,
    decreases calls,
{
    if calls > 0 {
        let rest = deliveries(take_model(slot).1, (calls - 1) as nat);
        lemma_delivered_at_most_once(take_model(slot).1, (calls - 1) as nat);
        assert forall|i: int| 1 <= i < calls implies (#[trigger] deliveries(slot, calls)[i]) is None by {
            assert(deliveries(slot, calls)[i] == rest[i - 1]);
            if i - 1 >= 1 {
                assert(rest[i - 1] is None);
            } else {
                assert(rest[0] == take_model(slot).1);
            }
        }
    }
}

/// Holds at most one resolved file for the user interface to fetch.
pub struct PendingFileSlot {
    file: Option<ResolvedFile>,
}

impl View for PendingFileSlot {
    type V = Option<FileView>;

    closed spec fn view(&self) -> Option<FileView> {
        option_view(self.file)
    }
}

impl PendingFileSlot {
    /// A slot that holds what the resolution produced.
    pub fn new(file: Option<ResolvedFile>) -> (slot: PendingFileSlot)
        ensures
            slot@ == option_view(file),
    {
        PendingFileSlot { file }
    }

    /// Whether nothing is pending.
    pub fn is_empty(&self) -> (empty: bool)
        ensures
            empty == (self@ is None),
    {
        self.file.is_none()
    }

    /// Gives out the pending file and leaves the slot empty.
    pub fn take(&mut self) -> (taken: Option<ResolvedFile>)
        ensures
            (option_view(taken), final(self)@) == take_model(old(self)@),
    {
        self.file.take()
    }
}

} // verus!
