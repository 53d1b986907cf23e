//! The course of a wrapped future, from one decision to the next.
use vstd::prelude::*;
use vstd::slice::slice_to_vec;

use crate::cache::{key_accepted, key_refused, written, Cache, CacheView, Serialized, Write};
use crate::clock::clock_gave;
use crate::entry::State;
use crate::error::Error;
use crate::time::{Duration, Timestamp};
use crate::waker::{waker_for, Cleanup, Signal, Stage, WakerView};

verus! {

/// Why a wrapped future gives no answer.
pub enum Failure<E> {
    /// The cache failed, or the call that this one waited for did.
    Cache(Error),
    /// The future failed.
    Future(E),
}

/// How far a wrapped future has come.
#[derive(Debug, Clone, Copy, PartialEq, Eq, Structural)]
pub enum Phase {
    /// The answer is being looked up.
    Lookup,
    /// Another call is computing the answer; this one is about to wait for it.
    Park,
    /// This call is waiting for another one, with this ticket.
    Wait(u64),
    /// This call is about to compute the answer, and looks it up once more.
    Recheck,
    /// The future is being driven.
    Drive,
    /// The output of the future is being stored.
    Store,
    /// The calls that wait are being notified.
    Cleanup(Cleanup),
    /// The call is over.
    Done,
}

/// What happened last to a wrapped future.
pub enum Event<T, E> {
    /// The answer was looked up.
    Looked(Result<State<T>, Error>),
    /// A channel was opened, with this ticket to send to it.
    Opened(u64),
    /// Whether the call that this one waited for failed; nothing if it went away.
    Notified(Option<bool>),
    /// The future is through.
    Computed(Result<T, E>),
    /// The future was dropped before it was through.
    Dropped,
    /// The output of the future was stored.
    Stored(Result<(), Error>),
    /// Time to go on.
    Tick,
}

/// What to do next for a wrapped future.
pub enum Action<T, E> {
    /// Look the answer up.
    Look,
    /// Open a channel to wait on.
    Open,
    /// Wait for a notification on the channel.
    Wait,
    /// Drive the future.
    Drive,
    /// Store the output of the future.
    Store,
    /// Tell the holder of the ticket whether the computation failed, and go on.
    Notify(u64, bool),
    /// Go on.
    Tick,
    /// This is the answer.
    Return(Result<T, Failure<E>>),
    /// There is nobody to answer any more.
    Cancelled,
}

/// A wrapped future.
pub struct Wrap<T, E> {
    key: Vec<u8>,
    age: Duration,
    phase: Phase,
    outcome: Option<Result<T, Failure<E>>>,
}

/// What a [Wrap] is at one moment.
#[verifier::ext_equal]
pub struct WrapView<T, E> {
    /// The key of the database that the answer is stored under.
    pub key: Seq<u8>,
    /// How long the answer is fresh, once it is stored.
    pub age: Duration,
    /// How far the call has come.
    pub phase: Phase,
    /// The answer, where it is known but cannot be given yet.
    pub outcome: Option<Result<T, Failure<E>>>,
}

impl<T, E> View for Wrap<T, E> {
    type V = WrapView<T, E>;

    closed spec fn view(&self) -> WrapView<T, E> {
        WrapView { key: self.key@, age: self.age, phase: self.phase, outcome: self.outcome }
    }
}

impl<T, E> WrapView<T, E> {
    /// The answer is kept only from the moment it is known until it is given.
    pub open spec fn wf(self) -> bool {
        &&& self.age.valid()
        &&& match self.phase {
            Phase::Store => self.outcome is Some && self.outcome->0 is Ok,
            Phase::Cleanup(_) => true,
            _ => self.outcome is None,
        }
    }

    /// The event is one that this phase waits for.
    pub open spec fn accepts(self, event: Event<T, E>) -> bool {
        match self.phase {
            Phase::Lookup => event is Looked,
            Phase::Park => event is Opened,
            Phase::Wait(_) => event is Notified,
            Phase::Recheck => event is Looked,
            Phase::Drive => event is Computed || event is Dropped,
            Phase::Store => event is Stored,
            Phase::Cleanup(_) => event is Tick,
            Phase::Done => false,
        }
    }

    /// The action is the one whose completion this phase waits for.
    pub open spec fn awaits(self, action: Action<T, E>) -> bool {
        match self.phase {
            Phase::Lookup => action is Look,
            Phase::Park => action is Open,
            Phase::Wait(_) => action is Wait,
            Phase::Recheck => action is Look,
            Phase::Drive => action is Drive,
            Phase::Store => action is Store,
            Phase::Cleanup(_) => action is Tick || action is Notify,
            Phase::Done => action is Return || action is Cancelled,
        }
    }

    /// In another phase.
    pub open spec fn at(self, phase: Phase) -> WrapView<T, E> {
        WrapView { phase, outcome: None, ..self }
    }

    /// In another phase, with an answer to give later.
    pub open spec fn holding(self, phase: Phase, outcome: Result<T, Failure<E>>) -> WrapView<T, E> {
        WrapView { phase, outcome: Some(outcome), ..self }
    }

    /// Where the call stands after the event, when its waker is as given.
    pub open spec fn next(self, event: Event<T, E>, waker: WakerView) -> WrapView<T, E> {
        match (self.phase, event) {
            (Phase::Lookup, Event::Looked(Ok(State::Fresh(_)))) => self.at(Phase::Done),
            (Phase::Lookup, Event::Looked(Err(_))) => self.at(Phase::Done),
            (Phase::Lookup, Event::Looked(Ok(_))) => if waker.pending > 0 {
                self.at(Phase::Park)
            } else {
                self.at(Phase::Recheck)
            },
            (Phase::Park, Event::Opened(ticket)) => self.at(Phase::Wait(ticket)),
            (Phase::Wait(_), Event::Notified(Some(true))) => self.at(Phase::Done),
            (Phase::Wait(_), Event::Notified(_)) => self.at(Phase::Lookup),
            (Phase::Recheck, Event::Looked(Ok(State::Fresh(entry)))) => self.holding(
                begin_cleanup(false),
                Ok(entry.value),
            ),
            (Phase::Recheck, Event::Looked(Err(_))) => self.at(Phase::Done),
            (Phase::Recheck, Event::Looked(Ok(_))) => self.at(Phase::Drive),
            (Phase::Drive, Event::Computed(Ok(output))) => self.holding(Phase::Store, Ok(output)),
            (Phase::Drive, Event::Computed(Err(e))) => self.holding(
                begin_cleanup(true),
                Err(Failure::Future(e)),
            ),
            (Phase::Drive, Event::Dropped) => self.at(begin_cleanup(false)),
            (Phase::Store, Event::Stored(Ok(_))) => WrapView {
                phase: begin_cleanup(false),
                ..self
            },
            (Phase::Store, Event::Stored(Err(_))) => self.at(Phase::Done),
            (Phase::Cleanup(cleanup), Event::Tick) => if cleanup.asks(waker) is Finished {
                self.at(Phase::Done)
            } else {
                WrapView { phase: Phase::Cleanup(cleanup.next(waker)), ..self }
            },
            _ => self,
        }
    }

    /// What the event leaves of the waker; nothing where the waker is not used.
    pub open spec fn leaves(self, event: Event<T, E>, waker: WakerView) -> Option<WakerView> {
        match (self.phase, event) {
            (Phase::Lookup, Event::Looked(Ok(State::Fresh(_)))) => None,
            (Phase::Lookup, Event::Looked(Ok(_))) => Some(waker.enrolled()),
            (Phase::Park, Event::Opened(ticket)) => Some(waker.parked(ticket)),
            (Phase::Cleanup(cleanup), Event::Tick) => Some(cleanup.leaves(waker)),
            _ => None,
        }
    }

    /// What is to be done after the event, when the waker is as given.
    pub open spec fn asks(self, event: Event<T, E>, waker: WakerView) -> Action<T, E> {
        match (self.phase, event) {
            (Phase::Lookup, Event::Looked(Ok(State::Fresh(entry)))) => Action::Return(
                Ok(entry.value),
            ),
            (Phase::Lookup, Event::Looked(Err(e))) => Action::Return(Err(Failure::Cache(e))),
            (Phase::Lookup, Event::Looked(Ok(_))) => if waker.pending > 0 {
                Action::Open
            } else {
                Action::Look
            },
            (Phase::Park, Event::Opened(_)) => Action::Wait,
            (Phase::Wait(_), Event::Notified(Some(true))) => Action::Return(
                Err(Failure::Cache(Error::Failed)),
            ),
            (Phase::Wait(_), Event::Notified(_)) => Action::Look,
            (Phase::Recheck, Event::Looked(Ok(State::Fresh(_)))) => Action::Tick,
            (Phase::Recheck, Event::Looked(Err(e))) => Action::Return(Err(Failure::Cache(e))),
            (Phase::Recheck, Event::Looked(Ok(_))) => Action::Drive,
            (Phase::Drive, Event::Computed(Ok(_))) => Action::Store,
            (Phase::Drive, _) => Action::Tick,
            (Phase::Store, Event::Stored(Err(e))) => Action::Return(Err(Failure::Cache(e))),
            (Phase::Store, _) => Action::Tick,
            (Phase::Cleanup(cleanup), _) => match cleanup.asks(waker) {
                Signal::Notify(ticket, error) => Action::Notify(ticket, error),
                Signal::Again => Action::Tick,
                Signal::Finished => match self.outcome {
                    Some(outcome) => Action::Return(outcome),
                    None => Action::Cancelled,
                },
            },
            _ => Action::Cancelled,
        }
    }
}

/// A wrapped future that waits for something outside, without the types of its answer.
pub struct Paused {
    key: Vec<u8>,
    age: Duration,
    phase: Phase,
}

/// What a [Paused] is.
#[verifier::ext_equal]
pub struct PausedView {
    /// The key of the database that the answer is stored under.
    pub key: Seq<u8>,
    /// How long the answer is fresh, once it is stored.
    pub age: Duration,
    /// How far the call has come.
    pub phase: Phase,
}

impl View for Paused {
    type V = PausedView;

    closed spec fn view(&self) -> PausedView {
        PausedView { key: self.key@, age: self.age, phase: self.phase }
    }
}

impl PausedView {
    /// The wrapped future, which knows no answer yet.
    pub open spec fn woken<T, E>(self) -> WrapView<T, E> {
        WrapView { key: self.key, age: self.age, phase: self.phase, outcome: None }
    }
}

impl Paused {
    /// Goes on where the call stood.
    pub fn wake<T, E>(self) -> (wrap: Wrap<T, E>)
        ensures
            wrap@ == self@.woken::<T, E>(),
    {
        Wrap { key: self.key, age: self.age, phase: self.phase, outcome: None }
    }
}

/// A clean-up that has not begun.
pub open spec fn begin_cleanup(error: bool) -> Phase {
    Phase::Cleanup(Cleanup { error, stage: Stage::Load })
}

/// The wakers after a step that concerns the one under `key`.
pub open spec fn after_step(
    wakers: Map<Seq<u8>, WakerView>,
    key: Seq<u8>,
    left: Option<WakerView>,
) -> Map<Seq<u8>, WakerView> {
    match left {
        Some(waker) => wakers.insert(key, waker),
        None => wakers,
    }
}

impl Cache {
    /// Wrap the result of a future to load and store from cache. The call begins with looking
    /// the answer up.
    pub fn wrap<T, E>(&self, key: Serialized, age: Duration) -> (wrap: Result<Wrap<T, E>, Error>)
        requires
            age.valid(),
        ensures
            match wrap {
                Ok(wrap) => {
                    &&& key_accepted(self@.ns, key, wrap@.key)
                    &&& wrap@.age == age
                    &&& wrap@.phase == Phase::Lookup
                    &&& wrap@.outcome is None
                },
                Err(e) => key_refused(self@.ns, key, e),
            },
    {
        match self.key(key) {
            Ok(key) => Ok(Wrap { key, age, phase: Phase::Lookup, outcome: None }),
            Err(e) => Err(e),
        }
    }
}

impl<T, E> Wrap<T, E> {
    /// The key of the database that the answer is stored under.
    pub fn key(&self) -> (key: &Vec<u8>)
        ensures
            key@ == self@.key,
    {
        &self.key
    }

    /// How far the call has come.
    pub fn phase(&self) -> (phase: Phase)
        ensures
            phase == self@.phase,
    {
        self.phase
    }

    /// What to write to store the output of the future.
    ///
    /// There is nothing to write where the calendar ends before the answer does.
    pub fn write(&self) -> (write: Option<Write<'_, T>>)
        requires
            self@.wf(),
            self@.phase is Store,
        ensures
            exists|now: Timestamp| #[trigger]
                clock_gave(now) && now.shown() && written(
                    write,
                    self@.key,
                    now,
                    self@.age,
                    self@.outcome->0->Ok_0,
                ),
    {
        match &self.outcome {
            Some(Ok(output)) => {
                Cache::inner_insert(slice_to_vec(self.key.as_slice()), self.age, output)
            },
            _ => None,
        }
    }

    /// Puts the call aside while it waits, at any point where it holds no answer.
    pub fn pause(self) -> (paused: Paused)
        requires
            self@.wf(),
            !(self@.phase is Store || self@.phase is Cleanup),
        ensures
            paused@.woken::<T, E>() == self@,
    {
        Paused { key: self.key, age: self.age, phase: self.phase }
    }

    /// Takes the next decision.
    ///
    /// Only the call that finds nobody enrolled drives its future; the others wait for it. A
    /// failure of the cache ends the call at once: one that was to drive its future stays
    /// enrolled then.
    pub fn resume(&mut self, cache: &mut Cache, event: Event<T, E>) -> (action: Action<T, E>)
        requires
            old(self)@.wf(),
            old(self)@.accepts(event),
            old(cache).wf(),
        ensures
            final(self)@.wf(),
            final(self)@.awaits(action),
            final(cache).wf(),
            ({
                let waker = waker_for(old(cache)@.wakers, old(self)@.key);
                &&& final(self)@ == old(self)@.next(event, waker)
                &&& action == old(self)@.asks(event, waker)
                &&& final(cache)@ == (CacheView {
                    wakers: after_step(
                        old(cache)@.wakers,
                        old(self)@.key,
                        old(self)@.leaves(event, waker),
                    ),
                    ..old(cache)@
                })
            }),
    {
        match (self.phase, event) {
            (Phase::Lookup, Event::Looked(looked)) => {
                // There is a slight race here. The answer might _just_ have been provided when we
                // perform this check.
                //
                // If that happens, worst case we will end up re-computing the answer again.
                match looked {
                    Ok(State::Fresh(e)) => {
                        self.phase = Phase::Done;
                        return Action::Return(Ok(e.value));
                    },
                    Err(e) => {
                        self.phase = Phase::Done;
                        return Action::Return(Err(Failure::Cache(e)));
                    },
                    Ok(_) => {},
                }
                let waker = cache.waker(self.key.as_slice());
                // only pending == 0 will be driving the future for a response.
                if waker.enroll() > 0 {
                    self.phase = Phase::Park;
                    Action::Open
                } else {
                    self.phase = Phase::Recheck;
                    Action::Look
                }
            },
            (Phase::Park, Event::Opened(ticket)) => {
                cache.waker(self.key.as_slice()).park(ticket);
                self.phase = Phase::Wait(ticket);
                Action::Wait
            },
            (Phase::Wait(_), Event::Notified(notice)) => match notice {
                Some(true) => {
                    self.phase = Phase::Done;
                    Action::Return(Err(Failure::Cache(Error::Failed)))
                },
                // Ignore if sender is cancelled, just loop again.
                _ => {
                    self.phase = Phase::Lookup;
                    Action::Look
                },
            },
            // Check key again in case we got really unlucky and had two calls do an interleaving
            // pass for the previous check:
            //
            // T1 just went past the first lookup above.
            // T2 just finished the clean-up procedure and reduces pending to 0.
            // T1 notices that it is the first pending thread (pending == 0) and ends up here.
            (Phase::Recheck, Event::Looked(looked)) => match looked {
                Ok(State::Fresh(e)) => {
                    self.outcome = Some(Ok(e.value));
                    self.phase = Phase::Cleanup(Cleanup::new(false));
                    Action::Tick
                },
                Err(e) => {
                    self.phase = Phase::Done;
                    Action::Return(Err(Failure::Cache(e)))
                },
                Ok(_) => {
                    self.phase = Phase::Drive;
                    Action::Drive
                },
            },
            // Compute the answer by polling the underlying future and store it in the cache,
            // then dispatch to all pending futures.
            (Phase::Drive, Event::Computed(output)) => match output {
                Ok(output) => {
                    self.outcome = Some(Ok(output));
                    self.phase = Phase::Store;
                    Action::Store
                },
                Err(e) => {
                    self.outcome = Some(Err(Failure::Future(e)));
                    self.phase = Phase::Cleanup(Cleanup::new(true));
                    Action::Tick
                },
            },
            (Phase::Drive, Event::Dropped) => {
                self.phase = Phase::Cleanup(Cleanup::new(false));
                Action::Tick
            },
            (Phase::Store, Event::Stored(stored)) => match stored {
                Ok(_) => {
                    self.phase = Phase::Cleanup(Cleanup::new(false));
                    Action::Tick
                },
                Err(e) => {
                    self.outcome = None;
                    self.phase = Phase::Done;
                    Action::Return(Err(Failure::Cache(e)))
                },
            },
            (Phase::Cleanup(cleanup), Event::Tick) => {
                let mut cleanup = cleanup;
                match cache.waker(self.key.as_slice()).cleanup(&mut cleanup) {
                    Signal::Notify(ticket, error) => {
                        self.phase = Phase::Cleanup(cleanup);
                        Action::Notify(ticket, error)
                    },
                    Signal::Again => {
                        self.phase = Phase::Cleanup(cleanup);
                        Action::Tick
                    },
                    Signal::Finished => {
                        self.phase = Phase::Done;
                        match self.outcome.take() {
                            Some(outcome) => Action::Return(outcome),
                            None => Action::Cancelled,
                        }
                    },
                }
            },
            _ => Action::Cancelled,
        }
    }
}

}
