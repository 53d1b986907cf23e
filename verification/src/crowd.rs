//! Calls that are after the same answer, taking turns in any order.
use vstd::prelude::*;

use crate::entry::{State, StoredEntry};
use crate::error::Error;
use crate::waker::{waker_for, Cleanup, Signal, Stage, WakerView};
use crate::wrap::{after_step, begin_cleanup, Action, Event, Failure, Phase, WrapView};

verus! {

/// The calls that are after the same answer.
pub struct Crowd {
    /// The waker that they share.
    pub waker: WakerView,
    /// How far each call has come.
    pub phases: Seq<Phase>,
    /// How many calls ended while they were enrolled, because the cache failed.
    pub stranded: nat,
    /// The tickets that were notified.
    pub notified: Set<u64>,
}

/// The call is the one that computes the answer.
pub open spec fn drives(phase: Phase) -> bool {
    match phase {
        Phase::Recheck | Phase::Drive | Phase::Store | Phase::Cleanup(_) => true,
        _ => false,
    }
}

/// One for the call that computes the answer.
pub open spec fn driver(phase: Phase) -> nat {
    if drives(phase) {
        1
    } else {
        0
    }
}

/// How many enrolled calls this one answers for: itself, if it has no queued ticket, and those
/// that it notified but did not take off the count yet.
pub open spec fn enrolled(phase: Phase) -> nat {
    match phase {
        Phase::Park | Phase::Recheck | Phase::Drive | Phase::Store => 1,
        Phase::Cleanup(cleanup) => match cleanup.stage {
            Stage::Drain(received) => 1 + received as nat,
            Stage::Subtract(received) => 1 + received as nat,
            _ => 1,
        },
        _ => 0,
    }
}

/// The sum of a number over all calls.
pub open spec fn sum(phases: Seq<Phase>, number: spec_fn(Phase) -> nat) -> nat
    decreases phases.len(),
{
    if phases.len() == 0 {
        0
    } else {
        sum(phases.drop_last(), number) + number(phases.last())
    }
}

impl Crowd {
    /// Nobody is there.
    pub open spec fn empty() -> Crowd {
        Crowd {
            waker: WakerView::idle(),
            phases: Seq::empty(),
            stranded: 0,
            notified: Set::empty(),
        }
    }

    /// A call comes.
    pub open spec fn joined(self) -> Crowd {
        Crowd { phases: self.phases.push(Phase::Lookup), ..self }
    }

    /// A call goes on.
    pub open spec fn stepped<T, E>(
        self,
        i: int,
        wrap: WrapView<T, E>,
        event: Event<T, E>,
    ) -> Crowd {
        let phase = wrap.next(event, self.waker).phase;
        Crowd {
            waker: match wrap.leaves(event, self.waker) {
                Some(waker) => waker,
                None => self.waker,
            },
            phases: self.phases.update(i, phase),
            stranded: if drives(wrap.phase) && wrap.phase !is Cleanup && phase is Done {
                self.stranded + 1
            } else {
                self.stranded
            },
            notified: match wrap.asks(event, self.waker) {
                Action::Notify(ticket, _) => self.notified.insert(ticket),
                _ => self.notified,
            },
        }
    }

    /// A call that waits is dropped.
    pub open spec fn dropped(self, i: int) -> Crowd {
        Crowd { phases: self.phases.update(i, Phase::Done), ..self }
    }

    /// Everybody who is enrolled is accounted for. At most one call computes the answer, and
    /// one does where anybody is enrolled, unless the cache failed under it.
    pub open spec fn inv(self) -> bool {
        &&& self.waker.pending == sum(self.phases, |p: Phase| enrolled(p)) + self.waker.queue.len()
            + self.stranded
        &&& sum(self.phases, |p: Phase| driver(p)) + self.stranded <= 1
        &&& self.waker.pending > 0 ==> sum(self.phases, |p: Phase| driver(p)) + self.stranded == 1
        &&& forall|i: int|
            0 <= i < self.phases.len() ==> match #[trigger] self.phases[i] {
                Phase::Cleanup(cleanup) => cleanup.stage != Stage::Done,
                Phase::Wait(ticket) => self.waker.queue.contains(ticket)
                    || self.notified.contains(ticket),
                _ => true,
            }
    }
}

proof fn lemma_sum_update(phases: Seq<Phase>, i: int, phase: Phase, number: spec_fn(Phase) -> nat)
    requires
        0 <= i < phases.len(),
    ensures
        sum(phases.update(i, phase), number) == sum(phases, number) - number(phases[i]) + number(
            phase,
        ),
        number(phases[i]) <= sum(phases, number),
    decreases phases.len(),
{
    if i == phases.len() - 1 {
        assert(phases.update(i, phase).drop_last() =~= phases.drop_last());
    } else {
        assert(phases.update(i, phase).drop_last() =~= phases.drop_last().update(i, phase));
        lemma_sum_update(phases.drop_last(), i, phase, number);
    }
}

proof fn lemma_sum_two(phases: Seq<Phase>, i: int, j: int, number: spec_fn(Phase) -> nat)
    requires
        0 <= i < j < phases.len(),
    ensures
        number(phases[i]) + number(phases[j]) <= sum(phases, number),
    decreases phases.len(),
{
    if j == phases.len() - 1 {
        lemma_sum_update(phases.drop_last(), i, Phase::Done, number);
    } else {
        lemma_sum_two(phases.drop_last(), i, j, number);
    }
}

proof fn lemma_drivers_are_enrolled(phases: Seq<Phase>)
    ensures
        sum(phases, |p: Phase| driver(p)) <= sum(phases, |p: Phase| enrolled(p)),
    decreases phases.len(),
{
    if phases.len() > 0 {
        lemma_drivers_are_enrolled(phases.drop_last());
    }
}

proof fn lemma_some(phases: Seq<Phase>, number: spec_fn(Phase) -> nat) -> (i: int)
    requires
        sum(phases, number) > 0,
    ensures
        0 <= i < phases.len(),
        number(phases[i]) > 0,
    decreases phases.len(),
{
    if number(phases.last()) > 0 {
        phases.len() - 1
    } else {
        lemma_some(phases.drop_last(), number)
    }
}

/// Nobody is there to begin with.
pub proof fn law_begins()
    ensures
        Crowd::empty().inv(),
{
}

/// A call that comes changes nothing for the others.
pub proof fn law_join_keeps(crowd: Crowd)
    requires
        crowd.inv(),
    ensures
        crowd.joined().inv(),
{
    assert(crowd.joined().phases.drop_last() =~= crowd.phases);
}

/// A call that is dropped while it waits changes nothing for the others.
pub proof fn law_drop_keeps(crowd: Crowd, i: int)
    requires
        crowd.inv(),
        0 <= i < crowd.phases.len(),
        crowd.phases[i] is Wait,
    ensures
        crowd.dropped(i).inv(),
{
    lemma_sum_update(crowd.phases, i, Phase::Done, |p: Phase| enrolled(p));
    lemma_sum_update(crowd.phases, i, Phase::Done, |p: Phase| driver(p));
}

/// Whatever a call does next, everybody who is enrolled stays accounted for, and at most one
/// call computes the answer.
pub proof fn law_step_keeps<T, E>(crowd: Crowd, i: int, wrap: WrapView<T, E>, event: Event<T, E>)
    requires
        crowd.inv(),
        0 <= i < crowd.phases.len(),
        wrap.phase == crowd.phases[i],
        wrap.accepts(event),
        crowd.waker.pending < usize::MAX,
    ensures
        crowd.stepped(i, wrap, event).inv(),
{
    let after = crowd.stepped(i, wrap, event);
    let phase = wrap.next(event, crowd.waker).phase;
    lemma_sum_update(crowd.phases, i, phase, |p: Phase| enrolled(p));
    lemma_sum_update(crowd.phases, i, phase, |p: Phase| driver(p));
    lemma_drivers_are_enrolled(crowd.phases);
    let queue = crowd.waker.queue;
    assert forall|j: int| 0 <= j < after.phases.len() implies match #[trigger] after.phases[j] {
        Phase::Cleanup(cleanup) => cleanup.stage != Stage::Done,
        Phase::Wait(ticket) => after.waker.queue.contains(ticket)
            || after.notified.contains(ticket),
        _ => true,
    } by {
        if j != i {
            assert(crowd.phases[j] == after.phases[j]);
        }
        if after.phases[j] is Wait {
            let ticket = after.phases[j]->Wait_0;
            if j == i {
                assert(after.waker.queue.last() == ticket);
            } else {
                if queue.contains(ticket) {
                    let k = choose|k: int| 0 <= k < queue.len() && queue[k] == ticket;
                    if wrap.asks(event, crowd.waker) is Notify {
                        if k > 0 {
                            assert(after.waker.queue[k - 1] == ticket);
                        }
                    } else {
                        assert(after.waker.queue[k] == ticket);
                    }
                }
            }
        }
    }
}

/// Two calls never compute the answer at the same time.
pub proof fn law_one_driver(crowd: Crowd, i: int, j: int)
    requires
        crowd.inv(),
        0 <= i < j < crowd.phases.len(),
    ensures
        !(drives(crowd.phases[i]) && drives(crowd.phases[j])),
{
    lemma_sum_two(crowd.phases, i, j, |p: Phase| driver(p));
}

/// Nobody waits in vain: where a ticket is queued, or a call is about to queue one, some call is
/// computing the answer, unless the cache failed under the one that was.
pub proof fn law_somebody_computes(crowd: Crowd)
    requires
        crowd.inv(),
        crowd.waker.queue.len() > 0 || exists|i: int|
            0 <= i < crowd.phases.len() && #[trigger] crowd.phases[i] is Park,
    ensures
        crowd.stranded > 0 || exists|i: int|
            0 <= i < crowd.phases.len() && #[trigger] drives(crowd.phases[i]),
{
    if crowd.waker.queue.len() == 0 {
        let i = choose|i: int| 0 <= i < crowd.phases.len() && #[trigger] crowd.phases[i] is Park;
        lemma_sum_update(crowd.phases, i, Phase::Done, |p: Phase| enrolled(p));
    }
    if crowd.stranded == 0 {
        let i = lemma_some(crowd.phases, |p: Phase| driver(p));
        assert(drives(crowd.phases[i]));
    }
}

/// A call that takes itself off the count as the last one leaves nobody behind: no ticket is
/// queued, nobody is about to queue one, and every call that waits has been notified.
pub proof fn law_last_leaves_nobody<T, E>(crowd: Crowd, i: int, wrap: WrapView<T, E>, j: int)
    requires
        crowd.inv(),
        0 <= i < crowd.phases.len(),
        wrap.phase == crowd.phases[i],
        wrap.phase is Cleanup,
        wrap.next(Event::Tick, crowd.waker).phase is Done,
        0 <= j < crowd.phases.len(),
    ensures
        crowd.stepped(i, wrap, Event::Tick).waker == WakerView::idle(),
        crowd.phases[j] !is Park,
        crowd.phases[j] is Wait ==> crowd.notified.contains(crowd.phases[j]->Wait_0),
{
    let number = |p: Phase| enrolled(p);
    lemma_sum_update(crowd.phases, i, Phase::Done, number);
    assert(crowd.waker.queue =~= Seq::empty());
    if i < j {
        lemma_sum_two(crowd.phases, i, j, number);
    } else if j < i {
        lemma_sum_two(crowd.phases, j, i, number);
    }
}

/// Where nobody is enrolled, nobody computes the answer and nobody is queued: the next call
/// that does not find the answer computes it.
pub proof fn law_idle_is_free<T, E>(crowd: Crowd, i: int, wrap: WrapView<T, E>, event: Event<T, E>)
    requires
        crowd.inv(),
        crowd.waker.pending == 0,
        0 <= i < crowd.phases.len(),
    ensures
        !drives(crowd.phases[i]),
        crowd.waker == WakerView::idle(),
        wrap.phase is Lookup && event is Looked && event->Looked_0 is Ok
            && event->Looked_0->Ok_0 !is Fresh ==> wrap.next(event, crowd.waker).phase is Recheck,
{
    lemma_sum_update(crowd.phases, i, Phase::Done, |p: Phase| enrolled(p));
    assert(crowd.waker.queue =~= Seq::empty());
}

/// The calls that are after the same answer, and how often it was computed.
pub struct Run {
    /// The calls.
    pub crowd: Crowd,
    /// The answer is stored, and fresh.
    pub answered: bool,
    /// How many futures were driven.
    pub runs: nat,
}

/// One for a call whose future is running, or whose output is not stored yet.
pub open spec fn runner(phase: Phase) -> nat {
    match phase {
        Phase::Drive | Phase::Store => 1,
        _ => 0,
    }
}

impl Run {
    /// Nobody is there, and there is no answer.
    pub open spec fn empty() -> Run {
        Run { crowd: Crowd::empty(), answered: false, runs: 0 }
    }

    /// Nothing fails, no future that is driven is dropped, and an answer that was stored stays
    /// fresh. A look that began before the answer was stored may miss it, but not one of the call
    /// that computes: only that call stores an answer.
    pub open spec fn smooth<T, E>(self, phase: Phase, event: Event<T, E>) -> bool {
        match event {
            Event::Looked(looked) => {
                &&& looked is Ok
                &&& looked->Ok_0 is Fresh ==> self.answered
                &&& phase is Recheck && self.answered ==> looked->Ok_0 is Fresh
            },
            Event::Computed(output) => output is Ok,
            Event::Dropped => false,
            Event::Stored(stored) => stored is Ok,
            _ => true,
        }
    }

    /// A call comes.
    pub open spec fn joined(self) -> Run {
        Run { crowd: self.crowd.joined(), ..self }
    }

    /// A call goes on.
    pub open spec fn stepped<T, E>(self, i: int, wrap: WrapView<T, E>, event: Event<T, E>) -> Run {
        Run {
            crowd: self.crowd.stepped(i, wrap, event),
            answered: self.answered || event is Stored,
            runs: if wrap.phase is Recheck && wrap.next(event, self.crowd.waker).phase is Drive {
                self.runs + 1
            } else {
                self.runs
            },
        }
    }

    /// A call that waits is dropped.
    pub open spec fn dropped(self, i: int) -> Run {
        Run { crowd: self.crowd.dropped(i), ..self }
    }

    /// A future was driven exactly if it is running now or if its output is the answer.
    pub open spec fn inv(self) -> bool {
        let running = sum(self.crowd.phases, |p: Phase| runner(p));
        &&& self.crowd.inv()
        &&& self.runs == running + if self.answered { 1nat } else { 0nat }
        &&& self.answered ==> running == 0
    }
}

proof fn lemma_runners_drive(phases: Seq<Phase>)
    ensures
        sum(phases, |p: Phase| runner(p)) <= sum(phases, |p: Phase| driver(p)),
    decreases phases.len(),
{
    if phases.len() > 0 {
        lemma_runners_drive(phases.drop_last());
    }
}

/// No future is driven before the first call comes.
pub proof fn law_run_begins()
    ensures
        Run::empty().inv(),
{
}

/// A call that comes drives no future yet.
pub proof fn law_run_join_keeps(run: Run)
    requires
        run.inv(),
    ensures
        run.joined().inv(),
{
    law_join_keeps(run.crowd);
    assert(run.joined().crowd.phases.drop_last() =~= run.crowd.phases);
}

/// A call that is dropped while it waits changes nothing for the futures that are driven.
pub proof fn law_run_drop_keeps(run: Run, i: int)
    requires
        run.inv(),
        0 <= i < run.crowd.phases.len(),
        run.crowd.phases[i] is Wait,
    ensures
        run.dropped(i).inv(),
        run.dropped(i).runs == run.runs,
{
    law_drop_keeps(run.crowd, i);
    lemma_sum_update(run.crowd.phases, i, Phase::Done, |p: Phase| runner(p));
}

/// However many calls are after the same answer and however they take turns, at most one future
/// is driven, as long as nothing fails, no future that is driven is dropped, and the answer stays
/// fresh.
pub proof fn law_one_future_is_driven<T, E>(
    run: Run,
    i: int,
    wrap: WrapView<T, E>,
    event: Event<T, E>,
)
    requires
        run.inv(),
        0 <= i < run.crowd.phases.len(),
        wrap.phase == run.crowd.phases[i],
        wrap.accepts(event),
        run.crowd.waker.pending < usize::MAX,
        run.smooth(wrap.phase, event),
    ensures
        run.stepped(i, wrap, event).inv(),
        run.stepped(i, wrap, event).runs <= 1,
{
    let after = run.stepped(i, wrap, event);
    let phase = wrap.next(event, run.crowd.waker).phase;
    law_step_keeps(run.crowd, i, wrap, event);
    lemma_sum_update(run.crowd.phases, i, phase, |p: Phase| runner(p));
    lemma_sum_update(run.crowd.phases, i, Phase::Done, |p: Phase| driver(p));
    lemma_sum_update(run.crowd.phases, i, Phase::Done, |p: Phase| runner(p));
    lemma_runners_drive(run.crowd.phases);
    lemma_runners_drive(run.crowd.phases.update(i, Phase::Done));
    lemma_runners_drive(after.crowd.phases);
}

/// Where a clean-up and the waker stand after so many steps that nobody else gets between.
pub open spec fn ran(cleanup: Cleanup, waker: WakerView, steps: nat) -> (Cleanup, WakerView)
    decreases steps,
{
    if steps == 0 {
        (cleanup, waker)
    } else {
        ran(cleanup.next(waker), cleanup.leaves(waker), (steps - 1) as nat)
    }
}

/// What a clean-up sends in so many steps that nobody else gets between.
pub open spec fn sent(cleanup: Cleanup, waker: WakerView, steps: nat) -> Seq<(u64, bool)>
    decreases steps,
{
    if steps == 0 {
        Seq::empty()
    } else {
        let rest = sent(cleanup.next(waker), cleanup.leaves(waker), (steps - 1) as nat);
        match cleanup.asks(waker) {
            Signal::Notify(ticket, error) => seq![(ticket, error)] + rest,
            _ => rest,
        }
    }
}

proof fn lemma_drain(cleanup: Cleanup, waker: WakerView, steps: nat)
    requires
        cleanup.stage is Drain,
        cleanup.stage->Drain_0 + waker.queue.len() <= usize::MAX,
        waker.queue.len() <= steps,
    ensures
        ({
            let drained = Cleanup {
                stage: Stage::Drain((cleanup.stage->Drain_0 + waker.queue.len()) as usize),
                ..cleanup
            };
            let left = WakerView { queue: Seq::empty(), ..waker };
            let rest = (steps - waker.queue.len()) as nat;
            let told = waker.queue.map_values(|t: u64| (t, cleanup.error));
            &&& ran(cleanup, waker, steps) == ran(drained, left, rest)
            &&& sent(cleanup, waker, steps) == told + sent(drained, left, rest)
        }),
    decreases waker.queue.len(),
{
    if waker.queue.len() == 0 {
        assert(waker.queue =~= Seq::empty());
        assert(waker =~= (WakerView { queue: Seq::empty(), ..waker }));
        assert(waker.queue.map_values(|t: u64| (t, cleanup.error)) =~= Seq::empty());
        assert(seq![] + sent(cleanup, waker, steps) =~= sent(cleanup, waker, steps));
    } else {
        let told = waker.queue.map_values(|t: u64| (t, cleanup.error));
        lemma_drain(cleanup.next(waker), cleanup.leaves(waker), (steps - 1) as nat);
        assert(told =~= seq![(waker.queue[0], cleanup.error)]
            + waker.queue.drop_first().map_values(|t: u64| (t, cleanup.error)));
        assert(sent(cleanup, waker, steps) =~= told + sent(
            Cleanup {
                stage: Stage::Drain((cleanup.stage->Drain_0 + waker.queue.len()) as usize),
                ..cleanup
            },
            WakerView { queue: Seq::empty(), ..waker },
            (steps - waker.queue.len()) as nat,
        ));
    }
}

/// A clean-up that nobody gets between notifies everybody who waits, in the order in which they
/// came and with the same message, and leaves nobody enrolled.
pub proof fn law_cleanup_alone(error: bool, waker: WakerView)
    requires
        waker.pending == waker.queue.len() + 1,
    ensures
        ({
            let cleanup = Cleanup { error, stage: Stage::Load };
            let steps = waker.queue.len() + 7;
            &&& ran(cleanup, waker, steps).0.stage is Done
            &&& ran(cleanup, waker, steps).1 == WakerView::idle()
            &&& sent(cleanup, waker, steps) == waker.queue.map_values(|t: u64| (t, error))
        }),
{
    reveal_with_fuel(ran, 8);
    reveal_with_fuel(sent, 8);
    let steps = waker.queue.len() + 7;
    let first = Cleanup { error, stage: Stage::Load };
    let told = waker.queue.map_values(|t: u64| (t, error));
    if waker.queue.len() == 0 {
        assert(told =~= Seq::empty());
        assert(waker.queue =~= Seq::empty());
    } else {
        let drain = Cleanup { error, stage: Stage::Drain(0) };
        lemma_drain(drain, waker, (steps - 1) as nat);
        let drained = Cleanup { error, stage: Stage::Drain(waker.queue.len() as usize) };
        let left = WakerView { queue: Seq::empty(), ..waker };
        assert(ran(first, waker, steps) == ran(drained, left, 6));
        assert(sent(first, waker, steps) == told + sent(drained, left, 6));
        assert(sent(drained, left, 6) =~= Seq::empty());
        assert(told + Seq::empty() =~= told);
    }
}

/// A fresh answer is returned at once: the waker is not used, and the future is not driven.
pub proof fn law_fresh_answer_is_returned<T, E>(
    wrap: WrapView<T, E>,
    entry: StoredEntry<T>,
    waker: WakerView,
)
    requires
        wrap.phase is Lookup,
    ensures
        ({
            let event = Event::<T, E>::Looked(Ok(State::Fresh(entry)));
            &&& wrap.asks(event, waker) == Action::<T, E>::Return(Ok(entry.value))
            &&& wrap.next(event, waker).phase is Done
            &&& wrap.leaves(event, waker) is None
        }),
{
}

/// The call that drove its future answers with the outcome of the future: once the calls that
/// wait are being notified, the answer stays what it is until it is given.
pub proof fn law_answer_is_kept<T, E>(wrap: WrapView<T, E>, waker: WakerView)
    requires
        wrap.phase is Cleanup,
    ensures
        ({
            let next = wrap.next(Event::Tick, waker);
            if next.phase is Done {
                wrap.outcome is Some ==> wrap.asks(Event::Tick, waker) == Action::<T, E>::Return(
                    wrap.outcome->0,
                )
            } else {
                next.phase is Cleanup && next.outcome == wrap.outcome
            }
        }),
{
}

/// The failure of a future is told to the calls that wait for it, which then fail too.
pub proof fn law_failure_is_told<T, E>(
    driver: WrapView<T, E>,
    waiter: WrapView<T, E>,
    e: E,
    waker: WakerView,
)
    requires
        driver.phase is Drive,
        waiter.phase is Wait,
    ensures
        driver.next(Event::Computed(Err(e)), waker).phase == begin_cleanup(true),
        waiter.asks(Event::Notified(Some(true)), waker) == Action::<T, E>::Return(
            Err(Failure::Cache(Error::Failed)),
        ),
{
}

/// A future that is through, or that is dropped, makes the calls that wait for it look for the
/// answer again.
pub proof fn law_others_look_again<T, E>(
    driver: WrapView<T, E>,
    waiter: WrapView<T, E>,
    waker: WakerView,
)
    requires
        waiter.phase is Wait,
    ensures
        driver.phase is Store ==> driver.next(Event::Stored(Ok(())), waker).phase == begin_cleanup(
            false,
        ),
        driver.phase is Drive ==> driver.next(Event::Dropped, waker).phase == begin_cleanup(false),
        waiter.asks(Event::Notified(Some(false)), waker) == Action::<T, E>::Look,
        waiter.asks(Event::Notified(None), waker) == Action::<T, E>::Look,
{
}

/// A clean-up tells everybody the same, from beginning to end.
pub proof fn law_same_message(cleanup: Cleanup, waker: WakerView)
    ensures
        cleanup.next(waker).error == cleanup.error,
        cleanup.asks(waker) is Notify ==> cleanup.asks(waker)->Notify_1 == cleanup.error,
{
}

/// Calls that are after different answers do not meet: a step of one leaves the waker of the
/// other as it is, and its own waker as the step says.
pub proof fn law_keys_are_independent(
    wakers: Map<Seq<u8>, WakerView>,
    key: Seq<u8>,
    other: Seq<u8>,
    left: Option<WakerView>,
)
    requires
        key != other,
    ensures
        waker_for(after_step(wakers, key, left), other) == waker_for(wakers, other),
        waker_for(after_step(wakers, key, left), key) == match left {
            Some(waker) => waker,
            None => waker_for(wakers, key),
        },
{
}

}
