//! The reload channel: the one path from the watcher's thread of control into
//! the render loop. Delivery is ordered — snapshots come out in the order
//! their compiles finished — and each snapshot is consumed exactly once.
//!
//! This is the channel's logic: a first-in-first-out buffer of snapshots. The
//! unverified glue moves it across the thread boundary; order and one-time
//! consumption are what these contracts pin down.

use vstd::prelude::*;

use crate::registry::ModuleRegistry;

verus! {

/// Pending reload events, oldest first. The watcher pushes at the back; the
/// render loop takes from the front, at most one per frame.
pub struct ReloadQueue {
    events: Vec<ModuleRegistry>,
}

impl View for ReloadQueue {
    type V = Seq<ModuleRegistry>;

    closed spec fn view(&self) -> Seq<ModuleRegistry> {
        self.events@
    }
}

impl ReloadQueue {
    /// An empty channel: nothing pending.
    pub fn new() -> (q: ReloadQueue)
        ensures
            q@ == Seq::<ModuleRegistry>::empty(),
    {
        ReloadQueue { events: Vec::new() }
    }

    /// How many snapshots are waiting.
    pub fn len(&self) -> (n: usize)
        ensures
            n == self@.len(),
    {
        self.events.len()
    }

    /// Deliver one snapshot: it queues behind everything sent before it, so
    /// delivery order is send order.
    pub fn send(&mut self, registry: ModuleRegistry)
        ensures
            final(self)@ == old(self)@.push(registry),
    {
        self.events.push(registry);
    }

    /// Take the oldest pending snapshot, if any; it leaves the channel, so it
    /// is consumed exactly once.
    pub fn recv(&mut self) -> (r: Option<ModuleRegistry>)
        ensures
            old(self)@.len() == 0 ==> r is None && final(self)@ == old(self)@,
            old(self)@.len() > 0 ==> r == Some(old(self)@[0]) && final(self)@ == old(
                self,
            )@.drop_first(),
    {
        if self.events.len() == 0 {
            None
        } else {
            let e = self.events.remove(0);
            proof {
                assert(self@ =~= old(self)@.drop_first());
            }
            Some(e)
        }
    }
}

/// Law: the channel never reorders. Whatever was already pending, after a
/// snapshot `first` is sent and then a snapshot `second`, `first` stands
/// closer to the front; with nothing pending before them, the next two
/// receives yield `first` and then `second` — finish order, never reversed.
pub proof fn lemma_delivery_in_finish_order(
    pending: Seq<ModuleRegistry>,
    first: ModuleRegistry,
    second: ModuleRegistry,
)
    ensures
        pending.push(first).push(second)[pending.len() as int] == first,
        pending.push(first).push(second)[pending.len() as int + 1] == second,
        pending.len() == 0 ==> pending.push(first).push(second)[0] == first
            && pending.push(first).push(second).drop_first()[0] == second,
{
    let q = pending.push(first).push(second);
    assert(q[pending.len() as int] == first);
    assert(q[pending.len() as int + 1] == second);
}

} // verus!
