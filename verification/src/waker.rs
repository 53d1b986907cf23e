//! Wakers: who computes an answer, and who waits for it.
use vstd::prelude::*;
use vstd::slice::slice_to_vec;

use crate::outside::{queue_new, queue_pop, queue_push, slots_entry, slots_get, slots_new};
use crate::outside::{queued, slotted};

verus! {

/// What a [Waker] is at one moment.
#[verifier::ext_equal]
pub struct WakerView {
    /// How many calls are enrolled: the one that computes, and those that wait.
    pub pending: usize,
    /// The tickets of the calls that wait, the oldest first.
    pub queue: Seq<u64>,
}

/// The calls that are after the same answer.
///
/// Every operation is a single step: calls may take turns between any two of them.
pub struct Waker {
    /// Number of things waiting for a response.
    pending: usize,
    /// Tickets to use for notifying dependents.
    channels: crossbeam::queue::SegQueue<u64>,
}

impl WakerView {
    /// A waker that nobody is enrolled with.
    pub open spec fn idle() -> WakerView {
        WakerView { pending: 0, queue: Seq::empty() }
    }

    /// One more call is enrolled. The count wraps around at the end of its range.
    pub open spec fn enrolled(self) -> WakerView {
        WakerView {
            pending: if self.pending == usize::MAX { 0 } else { (self.pending + 1) as usize },
            ..self
        }
    }

    /// A ticket is queued.
    pub open spec fn parked(self, ticket: u64) -> WakerView {
        WakerView { queue: self.queue.push(ticket), ..self }
    }

    /// `received` calls are no longer enrolled. The count wraps around at the end of its range.
    pub open spec fn settled(self, received: usize) -> WakerView {
        WakerView {
            pending: if received <= self.pending {
                (self.pending - received) as usize
            } else {
                (self.pending - received + usize::MAX + 1) as usize
            },
            ..self
        }
    }

    /// The last call is no longer enrolled, unless others still are.
    pub open spec fn released(self) -> WakerView {
        WakerView { pending: if self.pending == 1 { 0 } else { self.pending }, ..self }
    }
}

impl View for Waker {
    type V = WakerView;

    closed spec fn view(&self) -> WakerView {
        WakerView { pending: self.pending, queue: queued(self.channels) }
    }
}

/// How far a clean-up has come.
#[derive(Debug, Clone, Copy, PartialEq, Eq, Structural)]
pub enum Stage {
    /// About to look how many calls are enrolled.
    Load,
    /// Notifying the calls that are queued; this many were notified since the last count.
    Drain(usize),
    /// The queue was empty: about to take this many calls off the count.
    Subtract(usize),
    /// Everybody seems to be gone: about to leave, unless somebody came.
    Release,
    /// Nobody is enrolled any more.
    Done,
}

/// Spins on performing cleanup, receiving tickets to notify until we are in a stable state
/// where everything has been reset.
#[derive(Debug, Clone, Copy, PartialEq, Eq, Structural)]
pub struct Cleanup {
    /// Whether the calls that wait are told that the computation failed.
    pub error: bool,
    /// How far the clean-up has come.
    pub stage: Stage,
}

/// What one step of a clean-up asks for.
#[derive(Debug, Clone, Copy, PartialEq, Eq, Structural)]
pub enum Signal {
    /// Tell the holder of the ticket whether the computation failed, and take the next step.
    Notify(u64, bool),
    /// Take the next step.
    Again,
    /// The clean-up is over.
    Finished,
}

impl Cleanup {
    /// A clean-up that has not begun.
    pub fn new(error: bool) -> (cleanup: Cleanup)
        ensures
            cleanup == (Cleanup { error, stage: Stage::Load }),
    {
        Cleanup { error, stage: Stage::Load }
    }

    /// Where the clean-up stands after a step on the waker.
    pub open spec fn next(self, waker: WakerView) -> Cleanup {
        let stage = match self.stage {
            Stage::Load => after_count(waker.pending),
            Stage::Drain(received) => if waker.queue.len() > 0 {
                Stage::Drain(if received == usize::MAX { 0 } else { (received + 1) as usize })
            } else {
                Stage::Subtract(received)
            },
            Stage::Subtract(_) => after_count(waker.pending),
            Stage::Release => if waker.pending == 1 {
                Stage::Done
            } else {
                after_count(waker.pending)
            },
            Stage::Done => Stage::Done,
        };
        Cleanup { stage, ..self }
    }

    /// What a step leaves of the waker.
    pub open spec fn leaves(self, waker: WakerView) -> WakerView {
        match self.stage {
            Stage::Drain(_) => if waker.queue.len() > 0 {
                WakerView { queue: waker.queue.drop_first(), ..waker }
            } else {
                waker
            },
            Stage::Subtract(received) => waker.settled(received),
            Stage::Release => waker.released(),
            _ => waker,
        }
    }

    /// What a step asks for.
    pub open spec fn asks(self, waker: WakerView) -> Signal {
        match self.stage {
            Stage::Drain(_) => if waker.queue.len() > 0 {
                Signal::Notify(waker.queue[0], self.error)
            } else {
                Signal::Again
            },
            Stage::Release => if waker.pending == 1 {
                Signal::Finished
            } else {
                Signal::Again
            },
            Stage::Done => Signal::Finished,
            _ => Signal::Again,
        }
    }
}

/// What to do when `previous` calls were enrolled: notify those that wait, if there are any.
pub open spec fn after_count(previous: usize) -> Stage {
    if previous > 1 {
        Stage::Drain(0)
    } else {
        Stage::Release
    }
}

impl Waker {
    /// A waker that nobody is enrolled with.
    pub fn new() -> (waker: Waker)
        ensures
            waker@ == WakerView::idle(),
    {
        Waker { pending: 0, channels: queue_new() }
    }

    /// How many calls are enrolled.
    pub fn pending(&self) -> (pending: usize)
        ensures
            pending == self@.pending,
    {
        self.pending
    }

    /// Enrolls a call, and tells how many were enrolled before. Only the call that hears zero
    /// will be driving its future for a response.
    pub fn enroll(&mut self) -> (previous: usize)
        ensures
            previous == old(self)@.pending,
            final(self)@ == old(self)@.enrolled(),
    {
        let previous: usize = self.pending;
        self.pending = previous.wrapping_add(1);
        previous
    }

    /// Queues the ticket of a call that waits.
    pub fn park(&mut self, ticket: u64)
        ensures
            final(self)@ == old(self)@.parked(ticket),
    {
        queue_push(&mut self.channels, ticket);
    }

    /// Takes one step of a clean-up.
    ///
    /// The number of notifications sent is subtracted here, not by the calls that wait: on a
    /// single-threaded executor these make no progress while a clean-up runs.
    pub fn cleanup(&mut self, cleanup: &mut Cleanup) -> (signal: Signal)
        ensures
            *final(cleanup) == old(cleanup).next(old(self)@),
            final(self)@ == old(cleanup).leaves(old(self)@),
            signal == old(cleanup).asks(old(self)@),
    {
        match cleanup.stage {
            Stage::Load => {
                cleanup.stage = Self::count(self.pending);
                Signal::Again
            },
            Stage::Drain(received) => match queue_pop(&mut self.channels) {
                Some(ticket) => {
                    cleanup.stage = Stage::Drain(received.wrapping_add(1));
                    Signal::Notify(ticket, cleanup.error)
                },
                None => {
                    cleanup.stage = Stage::Subtract(received);
                    Signal::Again
                },
            },
            Stage::Subtract(received) => {
                let previous: usize = self.pending;
                self.pending = previous.wrapping_sub(received);
                cleanup.stage = Self::count(previous);
                Signal::Again
            },
            Stage::Release => {
                if self.pending == 1 {
                    self.pending = 0;
                    cleanup.stage = Stage::Done;
                    Signal::Finished
                } else {
                    cleanup.stage = Self::count(self.pending);
                    Signal::Again
                }
            },
            Stage::Done => Signal::Finished,
        }
    }

    /// The stage that follows a look at the count.
    fn count(previous: usize) -> (stage: Stage)
        ensures
            stage == after_count(previous),
    {
        if previous > 1 {
            Stage::Drain(0)
        } else {
            Stage::Release
        }
    }
}

/// The wakers of a cache, by the keys of the entries that they are for.
pub struct Wakers {
    slots: hashbrown::HashMap<Vec<u8>, usize>,
    wakers: Vec<Waker>,
}

impl View for Wakers {
    type V = Map<Seq<u8>, WakerView>;

    closed spec fn view(&self) -> Map<Seq<u8>, WakerView> {
        slotted(self.slots).map_values(|slot: usize| self.wakers@[slot as int]@)
    }
}

/// The waker for a key; a key that has none counts as one that nobody is enrolled with.
pub open spec fn waker_for(wakers: Map<Seq<u8>, WakerView>, key: Seq<u8>) -> WakerView {
    if wakers.contains_key(key) {
        wakers[key]
    } else {
        WakerView::idle()
    }
}

impl Wakers {
    /// Every key has a waker of its own.
    pub closed spec fn wf(self) -> bool {
        &&& forall|key: Seq<u8>| #[trigger]
            slotted(self.slots).contains_key(key) ==> slotted(self.slots)[key] < self.wakers@.len()
        &&& forall|a: Seq<u8>, b: Seq<u8>|
            #![trigger slotted(self.slots).contains_key(a), slotted(self.slots).contains_key(b)]
            slotted(self.slots).contains_key(a) && slotted(self.slots).contains_key(b)
                && slotted(self.slots)[a] == slotted(self.slots)[b] ==> a == b
    }

    /// No wakers.
    pub fn new() -> (wakers: Wakers)
        ensures
            wakers.wf(),
            wakers@ == Map::<Seq<u8>, WakerView>::empty(),
    {
        let wakers = Wakers { slots: slots_new(), wakers: Vec::new() };
        assert(wakers@ =~= Map::<Seq<u8>, WakerView>::empty());
        wakers
    }

    /// Get the waker associated with the given key.
    pub fn waker(&mut self, key: &[u8]) -> (waker: &mut Waker)
        requires
            old(self).wf(),
        ensures
            final(self).wf(),
            waker@ == waker_for(old(self)@, key@),
            final(self)@ == old(self)@.insert(key@, final(waker)@),
    {
        let slot: usize = match slots_get(&self.slots, key) {
            Some(slot) => slot,
            None => {
                let free: usize = self.wakers.len();
                self.wakers.push(Waker::new());
                slots_entry(&mut self.slots, slice_to_vec(key), free)
            },
        };
        &mut self.wakers[slot]
    }
}

}
