//! What holds of every listening session, proved of the transition that the
//! listener follows.

use crate::api::listener::{
    admissible, advance, effective_timeout, Action, Event, ListenerState, ListeningAction, Stage,
};
use crate::api::types::Update;
use crate::error::Error;
use vstd::prelude::*;

verus! {

/// Every event of the sequence can be taken by a listener.
pub open spec fn all_admissible(events: Seq<Event>) -> bool {
    forall|i: int| 0 <= i < events.len() ==> admissible(#[trigger] events[i])
}

/// A session that takes `events` one after the other, starting in `state`:
/// where it ends, and the actions that it asked for, one for each event.
pub open spec fn run(state: ListenerState, events: Seq<Event>) -> (ListenerState, Seq<Action>)
    decreases events.len(),
{
    if events.len() == 0 {
        (state, Seq::empty())
    } else {
        let (before, actions) = run(state, events.drop_last());
        let (after, action) = before.next(events.last());
        (after, actions.push(action))
    }
}

/// The updates that the actions hand to the handler, in order.
pub open spec fn dispatched(actions: Seq<Action>) -> Seq<Update>
    decreases actions.len(),
{
    if actions.len() == 0 {
        Seq::empty()
    } else {
        let before = dispatched(actions.drop_last());
        match actions.last() {
            Action::Dispatch(update) => before.push(update),
            _ => before,
        }
    }
}

/// The updates that the session takes in from its polls while it runs over
/// `events`, batch after batch. A batch counts where it answers a poll.
pub open spec fn fetched(state: ListenerState, events: Seq<Event>) -> Seq<Update>
    decreases events.len(),
{
    if events.len() == 0 {
        Seq::empty()
    } else {
        let before = fetched(state, events.drop_last());
        match events.last() {
            Event::Fetched(Ok(batch)) => if run(state, events.drop_last()).0.stage
                == Stage::Polling {
                before + batch@
            } else {
                before
            },
            _ => before,
        }
    }
}

/// The identifiers grow from each update to the next.
pub open spec fn ascending(updates: Seq<Update>) -> bool {
    forall|i: int, j: int|
        0 <= i < j < updates.len() ==> (#[trigger] updates[i]).update_id < (
        #[trigger] updates[j]).update_id
}

/// The action asks for no request and hands out no update.
pub open spec fn idle(action: Action) -> bool {
    action is Finish || action is Rejected
}

/// The session is ending or over.
pub open spec fn closing(state: ListenerState) -> bool {
    state.stage == Stage::Confirming || state.stage == Stage::Stopped
}

/// A listener that has not started is valid.
pub proof fn law_new_listener_is_valid(confirmed: i64, timeout: Option<i64>)
    ensures
        ListenerState::initial(confirmed, timeout).valid(),
{
}

/// A transition keeps a valid listener valid, and neither of its offsets
/// moves back.
pub proof fn law_step_keeps_validity(state: ListenerState, event: Event)
    requires
        state.valid(),
        admissible(event),
    ensures
        state.next(event).0.valid(),
        state.next(event).0.confirmed >= state.confirmed,
        state.next(event).0.handled_until >= state.handled_until,
        state.next(event).0.timeout == state.timeout,
{
    match (state.stage, event) {
        (Stage::Polling, Event::Fetched(Ok(batch))) => {
            let full = ListenerState {
                confirmed: state.handled_until,
                pending: batch@,
                ..state
            };
            assert(full.in_range());
            lemma_deliver_keeps_range(full);
        },
        (Stage::Dispatching, Event::Handled(Ok(wish))) => {
            lemma_deliver_keeps_range(
                ListenerState {
                    handled_until: advance(state.handled_until, state.current) as i64,
                    ..state
                },
            );
        },
        _ => {},
    }
}

proof fn lemma_deliver_keeps_range(state: ListenerState)
    requires
        state.in_range(),
    ensures
        state.deliver().0.in_range(),
{
    let after = state.deliver().0;
    if state.pending.len() > 0 {
        assert(state.pending[0].update_id < i64::MAX);
        assert forall|i: int| 0 <= i < after.pending.len() implies (
        #[trigger] after.pending[i]).update_id < i64::MAX by {
            assert(after.pending[i] == state.pending[i + 1]);
        }
    }
}

/// Over a whole session the listener stays valid and asks for one action per
/// event; the acknowledged offset and the working offset never decrease.
pub proof fn law_offsets_never_decrease(state: ListenerState, events: Seq<Event>)
    requires
        state.valid(),
        all_admissible(events),
    ensures
        run(state, events).0.valid(),
        run(state, events).1.len() == events.len(),
        run(state, events).0.confirmed >= state.confirmed,
        run(state, events).0.handled_until >= state.handled_until,
    decreases events.len(),
{
    if events.len() > 0 {
        law_offsets_never_decrease(state, events.drop_last());
        law_step_keeps_validity(run(state, events.drop_last()).0, events.last());
    }
}

/// Once the handler has come back without an error from the update that was
/// dispatched to it, the working offset lies past that update, and it stays
/// there whatever the session takes afterwards.
pub proof fn law_offset_passes_handled_update(
    state: ListenerState,
    event: Event,
    wish: ListeningAction,
    rest: Seq<Event>,
)
    requires
        state.valid(),
        admissible(event),
        all_admissible(rest),
        state.next(event).1 is Dispatch,
    ensures
        ({
            let update = state.next(event).1->Dispatch_0;
            let handled = state.next(event).0.next(Event::Handled(Ok(wish))).0;
            &&& handled.handled_until >= update.update_id + 1
            &&& run(handled, rest).0.handled_until >= update.update_id + 1
        }),
{
    let dispatching = state.next(event).0;
    law_step_keeps_validity(state, event);
    law_step_keeps_validity(dispatching, Event::Handled(Ok(wish)));
    law_offsets_never_decrease(dispatching.next(Event::Handled(Ok(wish))).0, rest);
}

/// A session that is ending or over asks for nothing more: whatever it
/// takes, it hands out no update and issues no request, and its offsets move
/// only when the acknowledgement is confirmed.
pub proof fn law_closing_session_is_idle(state: ListenerState, events: Seq<Event>)
    requires
        closing(state),
    ensures
        closing(run(state, events).0),
        run(state, events).0.handled_until == state.handled_until,
        run(state, events).1.len() == events.len(),
        forall|i: int| 0 <= i < events.len() ==> idle(#[trigger] run(state, events).1[i]),
        dispatched(run(state, events).1) == Seq::<Update>::empty(),
    decreases events.len(),
{
    if events.len() > 0 {
        law_closing_session_is_idle(state, events.drop_last());
        let (before, actions) = run(state, events.drop_last());
        let (after, action) = before.next(events.last());
        assert(idle(action));
        assert(run(state, events).1 == actions.push(action));
        assert(actions.push(action).drop_last() =~= actions);
    }
}

/// As long as the session is neither ending nor over, it has asked for no
/// acknowledgement: none goes out in the middle of a batch, and the one that
/// ends the session is the only one.
pub proof fn law_no_acknowledgement_before_the_end(state: ListenerState, events: Seq<Event>)
    requires
        !closing(run(state, events).0),
    ensures
        forall|i: int|
            0 <= i < events.len() ==> !(#[trigger] run(state, events).1[i] is Acknowledge),
    decreases events.len(),
{
    if events.len() > 0 {
        let earlier = events.drop_last();
        let (before, asked) = run(state, earlier);
        let (end, action) = before.next(events.last());
        assert(run(state, events).1 == asked.push(action));
        assert(closing(before) ==> closing(end));
        law_no_acknowledgement_before_the_end(state, earlier);
        lemma_run_asks_once_per_event(state, earlier);
        assert forall|i: int| 0 <= i < events.len() implies !(#[trigger] run(state, events).1[i]
            is Acknowledge) by {
            if i < asked.len() {
                assert(asked.push(action)[i] == asked[i]);
            }
        }
    }
}

proof fn lemma_run_asks_once_per_event(state: ListenerState, events: Seq<Event>)
    ensures
        run(state, events).1.len() == events.len(),
    decreases events.len(),
{
    if events.len() > 0 {
        lemma_run_asks_once_per_event(state, events.drop_last());
    }
}

/// When the handler answers `Stop` to the update that was dispatched to it,
/// the listener asks for one acknowledgement, at an offset past that update,
/// and from then on hands out no update, of this batch or of a later one, and
/// issues no further request.
pub proof fn law_stop_ends_dispatch(state: ListenerState, event: Event, rest: Seq<Event>)
    requires
        state.valid(),
        admissible(event),
        state.next(event).1 is Dispatch,
    ensures
        ({
            let update = state.next(event).1->Dispatch_0;
            let (stopped, action) = state.next(event).0.next(
                Event::Handled(Ok(ListeningAction::Stop)),
            );
            &&& action matches Action::Acknowledge { offset }
            &&& offset >= update.update_id + 1
            &&& offset == stopped.handled_until
            &&& forall|i: int| 0 <= i < rest.len() ==> idle(#[trigger] run(stopped, rest).1[i])
            &&& dispatched(run(stopped, rest).1) == Seq::<Update>::empty()
        }),
{
    let dispatching = state.next(event).0;
    law_step_keeps_validity(state, event);
    let stopped = dispatching.next(Event::Handled(Ok(ListeningAction::Stop))).0;
    law_closing_session_is_idle(stopped, rest);
}

/// When the handler fails on the update that was dispatched to it, the
/// listener asks for one acknowledgement at the working offset, which has not
/// moved, and from then on hands out no update and issues no further request.
/// Once that acknowledgement has gone through, the session finishes with the
/// handler's own error, and what was handled counts as acknowledged.
pub proof fn law_handler_failure_ends_session(
    state: ListenerState,
    event: Event,
    error: Error,
    answer: Vec<Update>,
    rest: Seq<Event>,
)
    requires
        state.valid(),
        admissible(event),
        state.next(event).1 is Dispatch,
    ensures
        ({
            let dispatching = state.next(event).0;
            let (failed, action) = dispatching.next(Event::Handled(Err(error)));
            let (over, result) = failed.next(Event::Acknowledged(Ok(answer)));
            &&& action == Action::Acknowledge { offset: dispatching.handled_until }
            &&& failed.handled_until == dispatching.handled_until
            &&& forall|i: int| 0 <= i < rest.len() ==> idle(#[trigger] run(failed, rest).1[i])
            &&& dispatched(run(failed, rest).1) == Seq::<Update>::empty()
            &&& result == Action::Finish(Err(error))
            &&& over.stage == Stage::Stopped
            &&& over.confirmed == dispatching.handled_until
        }),
{
    let dispatching = state.next(event).0;
    let failed = dispatching.next(Event::Handled(Err(error))).0;
    law_closing_session_is_idle(failed, rest);
}

/// Every update that the polls bring in goes to the handler once, in the
/// order in which it came: as long as the session has not been stopped, the
/// updates dispatched so far, followed by those of the batch that are still
/// waiting, are the updates taken in; once it has been stopped they are the
/// first of them. So where the identifiers of the updates taken in ascend,
/// those of the updates dispatched ascend too, and none occurs twice.
pub proof fn law_updates_are_dispatched_once_in_order(state: ListenerState, events: Seq<Event>)
    requires
        state.valid(),
        all_admissible(events),
    ensures
        ({
            let (end, actions) = run(state, events);
            let taken = state.pending + fetched(state, events);
            &&& dispatched(actions).is_prefix_of(taken)
            &&& !closing(end) ==> dispatched(actions) + end.pending == taken
            &&& ascending(taken) ==> ascending(dispatched(actions))
        }),
    decreases events.len(),
{
    let (end, actions) = run(state, events);
    let taken = state.pending + fetched(state, events);
    if events.len() == 0 {
        assert(dispatched(actions) + end.pending =~= taken);
    } else {
        let earlier = events.drop_last();
        law_updates_are_dispatched_once_in_order(state, earlier);
        law_offsets_never_decrease(state, earlier);
        let (before, asked) = run(state, earlier);
        let taken_before = state.pending + fetched(state, earlier);
        let (after, action) = before.next(events.last());
        assert(actions == asked.push(action));
        assert(actions.drop_last() =~= asked);
        let given = dispatched(asked);
        match (before.stage, events.last()) {
            (Stage::Polling, Event::Fetched(Ok(batch))) => {
                assert(before.pending.len() == 0);
                assert(given =~= taken_before);
                assert(taken =~= taken_before + batch@);
                if batch@.len() > 0 {
                    assert(dispatched(actions) == given.push(batch@[0]));
                    assert(end.pending == batch@.subrange(1, batch@.len() as int));
                }
                assert(dispatched(actions) + end.pending =~= taken);
            },
            (Stage::Dispatching, Event::Handled(Ok(wish))) => {
                assert(taken == taken_before);
                if wish != ListeningAction::Stop {
                    if before.pending.len() > 0 {
                        assert(dispatched(actions) == given.push(before.pending[0]));
                    }
                    assert(dispatched(actions) + end.pending =~= taken);
                } else {
                    assert(dispatched(actions) == given);
                }
            },
            _ => {
                assert(taken == taken_before);
                assert(dispatched(actions) == given);
                if !closing(end) {
                    assert(end.pending == before.pending);
                }
            },
        }
    }
    assert(dispatched(actions).is_prefix_of(taken));
}

/// Every update that has been dispatched lies below the working offset,
/// unless it is still with the handler or the session is ending.
spec fn passed(end: ListenerState, actions: Seq<Action>) -> bool {
    forall|i: int|
        0 <= i < actions.len() && (#[trigger] actions[i]) is Dispatch ==> {
            let id = actions[i]->Dispatch_0.update_id;
            ||| id < end.handled_until
            ||| end.stage == Stage::Dispatching && id == end.current
            ||| closing(end)
        }
}

proof fn lemma_run_passes_dispatched_updates(state: ListenerState, events: Seq<Event>)
    requires
        state.valid(),
        all_admissible(events),
    ensures
        passed(run(state, events).0, run(state, events).1),
    decreases events.len(),
{
    if events.len() > 0 {
        let earlier = events.drop_last();
        lemma_run_passes_dispatched_updates(state, earlier);
        law_offsets_never_decrease(state, earlier);
        let (before, asked) = run(state, earlier);
        law_step_keeps_validity(before, events.last());
        let (end, action) = before.next(events.last());
        let actions = asked.push(action);
        assert forall|i: int| 0 <= i < actions.len() && (#[trigger] actions[i]) is Dispatch implies {
            let id = actions[i]->Dispatch_0.update_id;
            ||| id < end.handled_until
            ||| end.stage == Stage::Dispatching && id == end.current
            ||| closing(end)
        } by {
            if i < asked.len() {
                assert(asked[i] is Dispatch);
            }
        }
    }
}

/// A poll never asks for an update that has been dispatched before it: its
/// offset lies past every such update. So a server that sends no update
/// below the offset it is asked for sends none a second time.
pub proof fn law_polls_ask_past_dispatched_updates(
    state: ListenerState,
    events: Seq<Event>,
    i: int,
    j: int,
)
    requires
        state.valid(),
        all_admissible(events),
        0 <= i < j < events.len(),
        run(state, events).1[i] is Dispatch,
        run(state, events).1[j] is Poll,
    ensures
        run(state, events).1[j]->Poll_offset > run(state, events).1[i]->Dispatch_0.update_id,
    decreases events.len(),
{
    let earlier = events.drop_last();
    law_offsets_never_decrease(state, earlier);
    let (before, asked) = run(state, earlier);
    let (end, action) = before.next(events.last());
    assert(run(state, events).1 == asked.push(action));
    if j < events.len() - 1 {
        law_polls_ask_past_dispatched_updates(state, earlier, i, j);
    } else {
        lemma_run_passes_dispatched_updates(state, events);
        assert(asked.push(action)[i] is Dispatch);
    }
}

/// When a poll fails, nothing changes and the same poll is asked for again:
/// the same offset, the same timeout, and no update goes to the handler.
pub proof fn law_failed_poll_is_retried(state: ListenerState, event: Event, error: Error)
    requires
        state.next(event).1 is Poll,
    ensures
        ({
            let polling = state.next(event).0;
            &&& polling.stage == Stage::Polling
            &&& state.next(event).1 == Action::Poll {
                offset: polling.handled_until,
                timeout: effective_timeout(polling.timeout),
            }
            &&& polling.next(Event::Fetched(Err(error))) == (polling, state.next(event).1)
        }),
{
}

/// A successful poll acknowledges what was handled before it, not the batch
/// that it brings: the acknowledged offset becomes the offset that the poll
/// asked for.
pub proof fn law_poll_confirms_previous_batch(state: ListenerState, batch: Vec<Update>)
    requires
        state.stage == Stage::Polling,
    ensures
        state.next(Event::Fetched(Ok(batch))).0.confirmed == state.handled_until,
        state.next(Event::Fetched(Ok(batch))).0.handled_until == state.handled_until,
{
}

} // verus!
