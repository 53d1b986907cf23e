//! What each step of a wrapped future does, and where its answers come from.
use vstd::prelude::*;

use crate::entry::State;
use crate::error::Error;
use crate::waker::{waker_for, Cleanup, Signal, Stage, WakerView};
use crate::wrap::{Action, Event, Failure, PausedView, Phase, WrapView};

verus! {

/// A call that is after an answer takes whatever its look brings, whatever ticket it is given,
/// whatever it is notified of and whatever its future gives.
pub proof fn law_call_takes_what_it_asked_for<T, E>(wrap: WrapView<T, E>)
    ensures
        wrap.phase is Lookup || wrap.phase is Recheck ==> forall|looked: Result<State<T>, Error>|
            #[trigger] wrap.accepts(Event::Looked(looked)),
        wrap.phase is Park ==> forall|ticket: u64| #[trigger] wrap.accepts(Event::Opened(ticket)),
        wrap.phase is Wait ==> forall|notice: Option<bool>| #[trigger]
            wrap.accepts(Event::Notified(notice)),
        wrap.phase is Drive ==> wrap.accepts(Event::Dropped) && forall|output: Result<T, E>|
            #[trigger] wrap.accepts(Event::Computed(output)),
        wrap.phase is Store ==> forall|stored: Result<(), Error>| #[trigger]
            wrap.accepts(Event::Stored(stored)),
        wrap.phase is Cleanup ==> wrap.accepts(Event::Tick),
{
}

/// A call that begins is well-formed, and stays so. What it asks for tells how far it has come:
/// every action but the last waits for its own completion.
pub proof fn law_action_tells_the_phase<T, E>(
    begun: WrapView<T, E>,
    wrap: WrapView<T, E>,
    event: Event<T, E>,
    waker: WakerView,
)
    requires
        begun.phase is Lookup,
        begun.outcome is None,
        begun.age.valid(),
        wrap.wf(),
        wrap.accepts(event),
    ensures
        begun.wf(),
        ({
            let action = wrap.asks(event, waker);
            let next = wrap.next(event, waker);
            &&& next.wf()
            &&& next.awaits(action)
            &&& action is Look <==> next.phase is Lookup || next.phase is Recheck
            &&& action is Open <==> next.phase is Park
            &&& action is Wait <==> next.phase is Wait
            &&& action is Drive <==> next.phase is Drive
            &&& action is Store <==> next.phase is Store
            &&& action is Tick || action is Notify <==> next.phase is Cleanup
            &&& action is Return || action is Cancelled <==> next.phase is Done
        }),
{
}

/// A call that was put aside goes on with the same key, for the same age, from where it stood.
pub proof fn law_paused_call_goes_on<T, E>(paused: PausedView)
    ensures
        paused.woken::<T, E>().key == paused.key,
        paused.woken::<T, E>().age == paused.age,
        paused.woken::<T, E>().phase == paused.phase,
        paused.woken::<T, E>().outcome is None,
{
}

/// The key and the age of a call stay what they are, whatever happens.
pub proof fn law_call_keeps_its_key<T, E>(
    wrap: WrapView<T, E>,
    event: Event<T, E>,
    waker: WakerView,
)
    ensures
        wrap.next(event, waker).key == wrap.key,
        wrap.next(event, waker).age == wrap.age,
{
}

/// A call never answers with a value that it found expired. A look that brings an expired entry
/// or none enrolls the call, whoever else is enrolled: it waits where somebody is, and looks once
/// more where nobody is.
pub proof fn law_expired_answer_is_not_used<T, E>(
    wrap: WrapView<T, E>,
    looked: State<T>,
    waker: WakerView,
)
    requires
        wrap.phase is Lookup,
        looked is Expired || looked is Missing,
    ensures
        ({
            let event = Event::<T, E>::Looked(Ok(looked));
            let left = wrap.leaves(event, waker);
            &&& wrap.asks(event, waker) !is Return
            &&& left is Some && left->0.queue == waker.queue
            &&& waker.pending < usize::MAX ==> left->0.pending == waker.pending + 1
            &&& waker.pending == usize::MAX ==> left->0.pending == 0
            &&& wrap.next(event, waker).outcome is None
            &&& waker.pending > 0 ==> {
                &&& wrap.asks(event, waker) is Open
                &&& wrap.next(event, waker).phase is Park
            }
            &&& waker.pending == 0 ==> {
                &&& wrap.asks(event, waker) is Look
                &&& wrap.next(event, waker).phase is Recheck
            }
        }),
{
}

/// A call that found nobody enrolled drives its future if its second look brings no fresh answer
/// either. A fresh one is kept for the answer, and those that came meanwhile are told to look.
pub proof fn law_second_look_decides<T, E>(
    wrap: WrapView<T, E>,
    looked: State<T>,
    waker: WakerView,
)
    requires
        wrap.phase is Recheck,
    ensures
        ({
            let event = Event::<T, E>::Looked(Ok(looked));
            let next = wrap.next(event, waker);
            &&& wrap.leaves(event, waker) is None
            &&& looked is Expired || looked is Missing ==> {
                &&& wrap.asks(event, waker) is Drive
                &&& next.phase is Drive
                &&& next.outcome is None
            }
            &&& looked is Fresh ==> {
                &&& wrap.asks(event, waker) is Tick
                &&& next.phase == Phase::Cleanup(Cleanup { error: false, stage: Stage::Load })
                &&& next.outcome == Some(Ok::<T, Failure<E>>(looked->Fresh_0.value))
            }
        }),
{
}

/// A failure of the cache ends the call with that failure, and leaves the waker as it is.
pub proof fn law_cache_failure_is_returned<T, E>(
    wrap: WrapView<T, E>,
    event: Event<T, E>,
    e: Error,
    waker: WakerView,
)
    requires
        ({
            ||| (wrap.phase is Lookup || wrap.phase is Recheck) && event == Event::<T, E>::Looked(
                Err(e),
            )
            ||| wrap.phase is Store && event == Event::<T, E>::Stored(Err(e))
        }),
    ensures
        wrap.asks(event, waker) == Action::<T, E>::Return(Err(Failure::Cache(e))),
        wrap.next(event, waker).phase is Done,
        wrap.next(event, waker).outcome is None,
        wrap.leaves(event, waker) is None,
{
}

/// A call that is to wait queues its ticket behind the others, and waits with it.
pub proof fn law_ticket_is_queued_last<T, E>(
    wrap: WrapView<T, E>,
    ticket: u64,
    waker: WakerView,
)
    requires
        wrap.phase is Park,
    ensures
        ({
            let event = Event::<T, E>::Opened(ticket);
            let left = wrap.leaves(event, waker);
            &&& wrap.asks(event, waker) is Wait
            &&& wrap.next(event, waker).phase == Phase::Wait(ticket)
            &&& wrap.next(event, waker).outcome is None
            &&& left is Some && left->0.pending == waker.pending
            &&& left->0.queue.len() == waker.queue.len() + 1
            &&& left->0.queue.last() == ticket
            &&& left->0.queue.drop_last() == waker.queue
        }),
{
    assert(waker.queue.push(ticket).drop_last() =~= waker.queue);
}

/// A call that waits fails if it is told so, and otherwise looks for the answer from the start.
/// Either way it leaves the waker as it is: the call that told it took it off the count.
pub proof fn law_notice_is_followed<T, E>(
    wrap: WrapView<T, E>,
    notice: Option<bool>,
    waker: WakerView,
)
    requires
        wrap.phase is Wait,
    ensures
        ({
            let event = Event::<T, E>::Notified(notice);
            &&& wrap.leaves(event, waker) is None
            &&& wrap.next(event, waker).outcome is None
            &&& notice == Some(true) ==> {
                &&& wrap.asks(event, waker) == Action::<T, E>::Return(
                    Err(Failure::Cache(Error::Failed)),
                )
                &&& wrap.next(event, waker).phase is Done
            }
            &&& notice != Some(true) ==> {
                &&& wrap.asks(event, waker) is Look
                &&& wrap.next(event, waker).phase is Lookup
            }
        }),
{
}

/// The output of a future is stored before anybody is told of it. A failure is told as one, and
/// a future that was dropped makes the others look again. The waker is left to the clean-up.
pub proof fn law_future_is_followed<T, E>(
    wrap: WrapView<T, E>,
    event: Event<T, E>,
    waker: WakerView,
)
    requires
        wrap.phase is Drive,
        event is Computed || event is Dropped,
    ensures
        ({
            let next = wrap.next(event, waker);
            &&& wrap.leaves(event, waker) is None
            &&& match event {
                Event::Computed(Ok(output)) => {
                    &&& wrap.asks(event, waker) is Store
                    &&& next.phase is Store
                    &&& next.outcome == Some(Ok::<T, Failure<E>>(output))
                },
                Event::Computed(Err(e)) => {
                    &&& wrap.asks(event, waker) is Tick
                    &&& next.phase == Phase::Cleanup(Cleanup { error: true, stage: Stage::Load })
                    &&& next.outcome == Some(Err::<T, Failure<E>>(Failure::Future(e)))
                },
                _ => {
                    &&& wrap.asks(event, waker) is Tick
                    &&& next.phase == Phase::Cleanup(Cleanup { error: false, stage: Stage::Load })
                    &&& next.outcome is None
                },
            }
        }),
{
}

/// Once the output is stored, those that wait are told to look, and the output is kept for the
/// answer.
pub proof fn law_stored_output_is_told<T, E>(wrap: WrapView<T, E>, waker: WakerView)
    requires
        wrap.phase is Store,
    ensures
        ({
            let event = Event::<T, E>::Stored(Ok(()));
            &&& wrap.asks(event, waker) is Tick
            &&& wrap.next(event, waker).phase == Phase::Cleanup(
                Cleanup { error: false, stage: Stage::Load },
            )
            &&& wrap.next(event, waker).outcome == wrap.outcome
            &&& wrap.leaves(event, waker) is None
        }),
{
}

/// A step of a call that cleans up is a step of its clean-up on the waker. What the clean-up sends
/// is what the call sends, and the call ends with the clean-up: with the answer that it kept, or,
/// if it was dropped, with none.
pub proof fn law_call_cleans_up<T, E>(wrap: WrapView<T, E>, waker: WakerView)
    requires
        wrap.phase is Cleanup,
    ensures
        ({
            let cleanup = wrap.phase->Cleanup_0;
            let event = Event::<T, E>::Tick;
            let next = wrap.next(event, waker);
            &&& wrap.leaves(event, waker) == Some(cleanup.leaves(waker))
            &&& match cleanup.asks(waker) {
                Signal::Notify(ticket, error) => {
                    &&& wrap.asks(event, waker) == Action::<T, E>::Notify(ticket, error)
                    &&& next.phase == Phase::Cleanup(cleanup.next(waker))
                    &&& next.outcome == wrap.outcome
                },
                Signal::Again => {
                    &&& wrap.asks(event, waker) is Tick
                    &&& next.phase == Phase::Cleanup(cleanup.next(waker))
                    &&& next.outcome == wrap.outcome
                },
                Signal::Finished => {
                    &&& wrap.outcome is Some ==> wrap.asks(event, waker) == Action::<
                        T,
                        E,
                    >::Return(wrap.outcome->0)
                    &&& wrap.outcome is None ==> wrap.asks(event, waker) is Cancelled
                    &&& next.phase is Done
                    &&& next.outcome is None
                },
            }
        }),
{
}

/// Answers are earned. A call that answers with a value has just found it fresh, or has kept it
/// since it found it fresh or since its own future gave it. A call that answers with the failure
/// of a future has kept it since its own future failed. It fails without a reason only if it was
/// told that another future failed, and with a failure of the cache only if it has just met it.
pub proof fn law_answers_are_earned<T, E>(
    wrap: WrapView<T, E>,
    event: Event<T, E>,
    waker: WakerView,
)
    requires
        wrap.wf(),
        wrap.accepts(event),
        wrap.asks(event, waker) is Return,
    ensures
        match wrap.asks(event, waker)->Return_0 {
            Ok(value) => {
                ||| wrap.phase is Lookup && event is Looked && event->Looked_0 is Ok
                    && event->Looked_0->Ok_0 is Fresh && event->Looked_0->Ok_0->Fresh_0.value
                    == value
                ||| wrap.phase is Cleanup && wrap.outcome == Some(Ok::<T, Failure<E>>(value))
            },
            Err(Failure::Future(e)) => {
                &&& wrap.phase is Cleanup
                &&& wrap.outcome == Some(Err::<T, Failure<E>>(Failure::Future(e)))
            },
            Err(Failure::Cache(e)) => {
                ||| event == Event::<T, E>::Looked(Err(e))
                ||| event == Event::<T, E>::Stored(Err(e))
                ||| event == Event::<T, E>::Notified(Some(true)) && e is Failed
                ||| wrap.phase is Cleanup && wrap.outcome == Some(
                    Err::<T, Failure<E>>(Failure::Cache(e)),
                )
            },
        },
{
}

/// An answer that a call keeps is one that it kept before, a value that it has just found fresh,
/// or what its own future has just given.
pub proof fn law_kept_answers_are_earned<T, E>(
    wrap: WrapView<T, E>,
    event: Event<T, E>,
    waker: WakerView,
)
    requires
        wrap.wf(),
        wrap.accepts(event),
        wrap.next(event, waker).outcome is Some,
    ensures
        ({
            let outcome = wrap.next(event, waker).outcome->0;
            ||| wrap.outcome == Some(outcome)
            ||| outcome is Ok && event is Looked && event->Looked_0 is Ok
                && event->Looked_0->Ok_0 is Fresh && event->Looked_0->Ok_0->Fresh_0.value
                == outcome->Ok_0
            ||| outcome is Ok && event == Event::<T, E>::Computed(Ok(outcome->Ok_0))
            ||| outcome is Err && outcome->Err_0 is Future && event == Event::<T, E>::Computed(
                Err(outcome->Err_0->Future_0),
            )
        }),
{
}

/// The next stage goes by how many calls were enrolled: with more than this one, those that wait
/// are notified; else this one leaves.
pub open spec fn counted(stage: Stage, enrolled: int) -> bool {
    &&& enrolled > 1 ==> stage == Stage::Drain(0)
    &&& enrolled <= 1 ==> stage == Stage::Release
}

/// A clean-up begins with a look at the count, which changes nothing.
pub proof fn law_cleanup_looks_first(cleanup: Cleanup, waker: WakerView)
    requires
        cleanup.stage is Load,
    ensures
        counted(cleanup.next(waker).stage, waker.pending as int),
        cleanup.leaves(waker) == waker,
        cleanup.asks(waker) is Again,
{
}

/// A clean-up takes the oldest ticket off the queue, tells its holder how the computation ended,
/// and counts it. The queue behind it stays in order, and nobody is taken off the count yet.
pub proof fn law_cleanup_notifies_the_oldest(cleanup: Cleanup, waker: WakerView)
    requires
        cleanup.stage is Drain,
        waker.queue.len() > 0,
    ensures
        cleanup.asks(waker) == Signal::Notify(waker.queue[0], cleanup.error),
        seq![waker.queue[0]] + cleanup.leaves(waker).queue == waker.queue,
        cleanup.leaves(waker).pending == waker.pending,
        cleanup.next(waker).stage is Drain,
        cleanup.stage->Drain_0 < usize::MAX ==> cleanup.next(waker).stage->Drain_0
            == cleanup.stage->Drain_0 + 1,
        cleanup.stage->Drain_0 == usize::MAX ==> cleanup.next(waker).stage->Drain_0 == 0,
{
    assert(seq![waker.queue[0]] + waker.queue.drop_first() =~= waker.queue);
}

/// A clean-up that finds the queue empty goes on to take those off the count that it notified.
pub proof fn law_cleanup_empties_the_queue(cleanup: Cleanup, waker: WakerView)
    requires
        cleanup.stage is Drain,
        waker.queue.len() == 0,
    ensures
        cleanup.asks(waker) is Again,
        cleanup.leaves(waker) == waker,
        cleanup.next(waker).stage == Stage::Subtract(cleanup.stage->Drain_0),
{
}

/// A clean-up takes exactly those off the count that it notified, and goes by the count that was
/// before.
pub proof fn law_cleanup_settles_the_count(cleanup: Cleanup, waker: WakerView)
    requires
        cleanup.stage is Subtract,
    ensures
        ({
            let received = cleanup.stage->Subtract_0;
            let left = cleanup.leaves(waker);
            &&& cleanup.asks(waker) is Again
            &&& left.queue == waker.queue
            &&& received <= waker.pending ==> left.pending == waker.pending - received
            &&& received > waker.pending ==> left.pending == waker.pending - received + usize::MAX
                + 1
            &&& counted(cleanup.next(waker).stage, waker.pending as int)
        }),
{
}

/// A clean-up ends exactly when the call is the only one enrolled, and then leaves nobody
/// enrolled. Otherwise it changes nothing and goes by the count.
pub proof fn law_cleanup_leaves_last(cleanup: Cleanup, waker: WakerView)
    requires
        cleanup.stage is Release,
    ensures
        cleanup.leaves(waker).queue == waker.queue,
        waker.pending == 1 ==> {
            &&& cleanup.asks(waker) is Finished
            &&& cleanup.next(waker).stage is Done
            &&& cleanup.leaves(waker).pending == 0
        },
        waker.pending != 1 ==> {
            &&& cleanup.asks(waker) is Again
            &&& counted(cleanup.next(waker).stage, waker.pending as int)
            &&& cleanup.leaves(waker).pending == waker.pending
        },
{
}

/// A clean-up that has ended does nothing more.
pub proof fn law_cleanup_ends(cleanup: Cleanup, waker: WakerView)
    requires
        cleanup.stage is Done,
    ensures
        cleanup.asks(waker) is Finished,
        cleanup.next(waker) == cleanup,
        cleanup.leaves(waker) == waker,
{
}

/// A waker that enrolls a call counts one more, one that queues a ticket has it last, and neither
/// touches what the other does.
pub proof fn law_waker_counts_and_queues(waker: WakerView, ticket: u64)
    ensures
        waker.enrolled().queue == waker.queue,
        waker.pending < usize::MAX ==> waker.enrolled().pending == waker.pending + 1,
        waker.pending == usize::MAX ==> waker.enrolled().pending == 0,
        waker.parked(ticket).pending == waker.pending,
        waker.parked(ticket).queue == waker.queue + seq![ticket],
{
}

/// A key that has a waker has that one; for any other nobody is enrolled and nobody waits.
pub proof fn law_unknown_key_is_idle(wakers: Map<Seq<u8>, WakerView>, key: Seq<u8>)
    ensures
        wakers.contains_key(key) ==> waker_for(wakers, key) == wakers[key],
        !wakers.contains_key(key) ==> waker_for(wakers, key).pending == 0 && waker_for(
            wakers,
            key,
        ).queue.len() == 0,
        WakerView::idle().pending == 0,
        WakerView::idle().queue.len() == 0,
{
}

}
