//! What holds of every worker, stated over the steps of [`next`] and over
//! the looks at the pending values of [`settle`].

use crate::error::ErrorView;
use crate::json::json_text;
use crate::slots::{lemma_key_order_counts, lemma_key_order_is_unique};
use crate::worker::{
    answer, delivery, next, refusal, settle, ActionView, DeliveryView, EvaluationView, EventView,
    MessageView, Observation, ReplyView, Settlement, WorkerView,
};
use serde_json::Value;
use vstd::prelude::*;

verus! {

// Code that is answered at once.

/// Code that gives a value with a place in the interchange format is
/// answered at once, with the text of the value, and nothing is parked.
pub proof fn lemma_value_is_answered_with_its_text(
    pre: WorkerView,
    reply: u64,
    value: Value,
    post: WorkerView,
    action: ActionView,
)
    requires
        !pre.stopped,
        next(pre, EventView::Evaluated(reply, EvaluationView::Immediate(Some(value))), post, action),
    ensures
        action == answer(reply, Ok(json_text(value))),
        post.promises == pre.promises,
{
}

/// Code that gives a value without a place in the interchange format is
/// answered at once with a conversion error.
pub proof fn lemma_unrepresentable_value_is_a_conversion_error(
    pre: WorkerView,
    reply: u64,
    post: WorkerView,
    action: ActionView,
)
    requires
        !pre.stopped,
        next(pre, EventView::Evaluated(reply, EvaluationView::Immediate(None)), post, action),
    ensures
        action == answer(reply, Err(ErrorView::conversion_error())),
        post.promises == pre.promises,
{
}

/// Code that throws is answered with an execution error that carries the
/// diagnostic, and the worker takes the next `Eval` as before.
pub proof fn lemma_throw_is_answered_and_leaves_the_worker_usable(
    pre: WorkerView,
    reply: u64,
    message: Seq<char>,
    post: WorkerView,
    action: ActionView,
    code: Seq<char>,
    later_reply: u64,
    later_post: WorkerView,
    later_action: ActionView,
)
    requires
        !pre.stopped,
        next(pre, EventView::Evaluated(reply, EvaluationView::Threw(message)), post, action),
        next(post, EventView::Message(MessageView::Eval(code, later_reply)), later_post, later_action),
    ensures
        action == answer(reply, Err(ErrorView::execution_error(Some(message)))),
        post.promises == pre.promises,
        !post.stopped,
        later_action == ActionView::Evaluate(code, later_reply),
{
}

// Code that gives a pending value, and the looks at the pending values.

/// Code that gives a pending value is not answered: its reply channel is
/// parked under a key that was free, and what was parked before stays.
pub proof fn lemma_pending_value_is_parked(
    pre: WorkerView,
    reply: u64,
    post: WorkerView,
    action: ActionView,
)
    requires
        !pre.stopped,
        next(pre, EventView::Evaluated(reply, EvaluationView::Promise), post, action),
    ensures
        action is Park,
        !pre.promises.contains_key(action->Park_0),
        post.promises.contains_pair(action->Park_0, reply),
        forall|other: usize| #[trigger]
            pre.promises.contains_key(other) ==> post.promises.contains_pair(
                other,
                pre.promises[other],
            ),
{
}

/// Two pending values that are parked one after the other have keys of
/// their own, and each key leads to the reply channel of its own `Eval`.
pub proof fn lemma_parked_values_have_their_own_keys(
    pre: WorkerView,
    first_reply: u64,
    between: WorkerView,
    first_action: ActionView,
    second_reply: u64,
    post: WorkerView,
    second_action: ActionView,
)
    requires
        !pre.stopped,
        next(pre, EventView::Evaluated(first_reply, EvaluationView::Promise), between, first_action),
        next(between, EventView::Evaluated(second_reply, EvaluationView::Promise), post, second_action),
    ensures
        first_action is Park,
        second_action is Park,
        first_action->Park_0 != second_action->Park_0,
        post.promises.contains_pair(first_action->Park_0, first_reply),
        post.promises.contains_pair(second_action->Park_0, second_reply),
{
}

/// A look at one pending value: where it is found settled and is in the
/// table, its entry leaves the table and is delivered, and else nothing
/// happens.
pub proof fn lemma_settle_one(promises: Map<usize, u64>, seen: Observation)
    ensures
        seen.state.settled() && promises.contains_key(seen.promise) ==> settle(promises, seq![seen])
            == (promises.remove(seen.promise), seq![delivery(promises, seen)]),
        !(seen.state.settled() && promises.contains_key(seen.promise)) ==> settle(
            promises,
            seq![seen],
        ) == (promises, Seq::<DeliveryView>::empty()),
{
    let observations = seq![seen];
    assert(settle(promises, observations.drop_last()) == (promises, Seq::<DeliveryView>::empty()));
    assert(Seq::<DeliveryView>::empty().push(delivery(promises, seen)) =~= seq![
        delivery(promises, seen),
    ]);
}

/// Two looks, one after the other, do what one look at both lists does.
pub proof fn lemma_settle_in_passes(
    promises: Map<usize, u64>,
    first: Seq<Observation>,
    second: Seq<Observation>,
)
    ensures
        settle(promises, first + second).0 == settle(settle(promises, first).0, second).0,
        settle(promises, first + second).1 == settle(promises, first).1 + settle(
            settle(promises, first).0,
            second,
        ).1,
    decreases second.len(),
{
    if second.len() > 0 {
        assert((first + second).drop_last() =~= first + second.drop_last());
        lemma_settle_in_passes(promises, first, second.drop_last());
    }
}

/// A look at the pending values that finds `key` settled nowhere leaves its
/// entry in the table.
pub proof fn lemma_unsettled_value_stays_parked(
    promises: Map<usize, u64>,
    observations: Seq<Observation>,
    key: usize,
)
    requires
        promises.contains_key(key),
        forall|i: int|
            0 <= i < observations.len() && (#[trigger] observations[i]).promise == key
                ==> !observations[i].state.settled(),
    ensures
        settle(promises, observations).0.contains_pair(key, promises[key]),
    decreases observations.len(),
{
    if observations.len() > 0 {
        lemma_unsettled_value_stays_parked(promises, observations.drop_last(), key);
    }
}

/// That `done` is the delivery that `seen` calls for: the observation finds
/// an entry of `promises` settled, `done` lets go of it and answers it, and
/// the entry is no longer in `left`.
pub open spec fn is_settlement_of(
    promises: Map<usize, u64>,
    left: Map<usize, u64>,
    seen: Observation,
    done: DeliveryView,
) -> bool {
    &&& seen.state.settled()
    &&& promises.contains_key(seen.promise)
    &&& !left.contains_key(seen.promise)
    &&& done == delivery(promises, seen)
}

/// That `done` is the delivery that one of `observations` calls for.
pub open spec fn has_settlement(
    promises: Map<usize, u64>,
    observations: Seq<Observation>,
    left: Map<usize, u64>,
    done: DeliveryView,
) -> bool {
    exists|i: int|
        0 <= i < observations.len() && is_settlement_of(
            promises,
            left,
            #[trigger] observations[i],
            done,
        )
}

/// A look at the pending values adds nothing to the table and changes no
/// entry, and it answers nothing but settlements: every delivery is the one
/// that some observation calls for, and the entry of that observation has
/// left the table.
pub proof fn lemma_every_answer_has_its_settlement(
    promises: Map<usize, u64>,
    observations: Seq<Observation>,
)
    ensures
        forall|key: usize| #[trigger]
            settle(promises, observations).0.contains_key(key) ==> promises.contains_pair(
                key,
                settle(promises, observations).0[key],
            ),
        forall|k: int|
            0 <= k < settle(promises, observations).1.len() ==> has_settlement(
                promises,
                observations,
                settle(promises, observations).0,
                #[trigger] settle(promises, observations).1[k],
            ),
    decreases observations.len(),
{
    if observations.len() > 0 {
        let earlier = observations.drop_last();
        lemma_every_answer_has_its_settlement(promises, earlier);
        let left = settle(promises, earlier);
        let now = settle(promises, observations);
        assert forall|k: int| 0 <= k < now.1.len() implies has_settlement(
            promises,
            observations,
            now.0,
            #[trigger] now.1[k],
        ) by {
            // An earlier delivery keeps its observation, and the last one has
            // the last observation.
            let i = if k < left.1.len() {
                choose|i: int|
                    0 <= i < earlier.len() && is_settlement_of(
                        promises,
                        left.0,
                        #[trigger] earlier[i],
                        left.1[k],
                    )
            } else {
                observations.len() - 1
            };
            assert(is_settlement_of(promises, now.0, observations[i], now.1[k]));
        }
    }
}

/// A pending value that a look finds settled is delivered by that look,
/// with the answer that the first observation to find it settled calls for,
/// and its entry leaves the table.
pub proof fn lemma_settled_value_is_delivered(
    promises: Map<usize, u64>,
    observations: Seq<Observation>,
    first: int,
)
    requires
        0 <= first < observations.len(),
        promises.contains_key(observations[first].promise),
        observations[first].state.settled(),
        forall|i: int|
            0 <= i < first && (#[trigger] observations[i]).promise == observations[first].promise
                ==> !observations[i].state.settled(),
    ensures
        !settle(promises, observations).0.contains_key(observations[first].promise),
        settle(promises, observations).1.contains(delivery(promises, observations[first])),
{
    let seen = observations[first];
    let before = observations.take(first);
    let after = observations.skip(first + 1);
    assert(observations =~= (before + seq![seen]) + after);
    // Up to the observation the entry stays, the observation takes it out,
    // and nothing later brings it back.
    lemma_unsettled_value_stays_parked(promises, before, seen.promise);
    lemma_settle_one(settle(promises, before).0, seen);
    lemma_settle_in_passes(promises, before, seq![seen]);
    lemma_settle_in_passes(promises, before + seq![seen], after);
    lemma_every_answer_has_its_settlement(settle(promises, before + seq![seen]).0, after);
    let place = settle(promises, before).1.len() as int;
    assert(settle(promises, observations).1[place] == delivery(promises, seen));
}

/// The one delivery that lets go of the pending value `key` and answers
/// `reply` with `result`.
pub open spec fn delivered(key: usize, reply: u64, result: Result<Seq<char>, ErrorView>) -> ActionView {
    ActionView::Deliver(
        seq![DeliveryView { promise: key, reply: ReplyView { to: reply, result } }],
    )
}

/// A pending value that is found fulfilled is answered with the text of the
/// fulfilment value, and its entry leaves the table.
pub proof fn lemma_fulfilment_is_answered_with_its_text(
    pre: WorkerView,
    key: usize,
    value: Value,
    completed: bool,
    post: WorkerView,
    action: ActionView,
)
    requires
        !pre.stopped,
        pre.promises.contains_key(key),
        next(
            pre,
            EventView::Polled(
                seq![Observation { promise: key, state: Settlement::Fulfilled(Some(value)) }],
                completed,
            ),
            post,
            action,
        ),
    ensures
        action == delivered(key, pre.promises[key], Ok(json_text(value))),
        post.promises == pre.promises.remove(key),
        !post.promises.contains_key(key),
{
    lemma_settle_one(
        pre.promises,
        Observation { promise: key, state: Settlement::Fulfilled(Some(value)) },
    );
}

/// A pending value that is found rejected is answered with a rejection that
/// carries the text of the rejection value, and its entry leaves the table.
pub proof fn lemma_rejection_is_answered_with_its_text(
    pre: WorkerView,
    key: usize,
    value: Value,
    completed: bool,
    post: WorkerView,
    action: ActionView,
)
    requires
        !pre.stopped,
        pre.promises.contains_key(key),
        next(
            pre,
            EventView::Polled(
                seq![Observation { promise: key, state: Settlement::Rejected(Some(value)) }],
                completed,
            ),
            post,
            action,
        ),
    ensures
        action == delivered(
            key,
            pre.promises[key],
            Err(ErrorView::promise_rejection(json_text(value))),
        ),
        post.promises == pre.promises.remove(key),
        !post.promises.contains_key(key),
{
    lemma_settle_one(
        pre.promises,
        Observation { promise: key, state: Settlement::Rejected(Some(value)) },
    );
}

/// That every observation finds an entry of `promises` settled, and no two
/// of them the same entry.
pub open spec fn each_settled_once(promises: Map<usize, u64>, observations: Seq<Observation>) -> bool {
    &&& forall|i: int|
        0 <= i < observations.len() ==> promises.contains_key((#[trigger] observations[i]).promise)
            && observations[i].state.settled()
    &&& forall|i: int, j: int|
        0 <= i < j < observations.len() ==> (#[trigger] observations[i]).promise != (
        #[trigger] observations[j]).promise
}

/// Pending values that are found settled, each once and in whatever order,
/// are answered one for one: the answers are as many as the observations,
/// each goes to the reply channel of its own entry with the answer that its
/// own settlement calls for, and exactly these entries leave the table.
pub proof fn lemma_each_settlement_is_answered_once(
    promises: Map<usize, u64>,
    observations: Seq<Observation>,
)
    requires
        each_settled_once(promises, observations),
    ensures
        settle(promises, observations).1.len() == observations.len(),
        forall|i: int|
            0 <= i < observations.len() ==> #[trigger] settle(promises, observations).1[i]
                == delivery(promises, observations[i]),
        forall|key: usize| #[trigger]
            settle(promises, observations).0.contains_key(key) <==> promises.contains_key(key)
                && forall|i: int|
                0 <= i < observations.len() ==> (#[trigger] observations[i]).promise != key,
        forall|key: usize| #[trigger]
            settle(promises, observations).0.contains_key(key) ==> settle(
                promises,
                observations,
            ).0[key] == promises[key],
    decreases observations.len(),
{
    if observations.len() > 0 {
        let earlier = observations.drop_last();
        let seen = observations.last();
        assert(each_settled_once(promises, earlier)) by {
            assert forall|i: int| 0 <= i < earlier.len() implies earlier[i] == observations[i] by {}
        }
        lemma_each_settlement_is_answered_once(promises, earlier);
        let left = settle(promises, earlier);
        let now = settle(promises, observations);
        // The last observation finds its entry still there: no earlier one
        // was of the same entry.
        assert(left.0.contains_key(seen.promise)) by {
            assert forall|i: int| 0 <= i < earlier.len() implies (#[trigger] earlier[i]).promise
                != seen.promise by {}
        }
        assert forall|key: usize| #[trigger]
            now.0.contains_key(key) <==> promises.contains_key(key) && forall|i: int|
                0 <= i < observations.len() ==> (#[trigger] observations[i]).promise != key by {
            if now.0.contains_key(key) {
                assert forall|i: int| 0 <= i < observations.len() implies (
                #[trigger] observations[i]).promise != key by {
                    if i < earlier.len() {
                        assert(earlier[i] == observations[i]);
                    }
                }
            }
            if promises.contains_key(key) && forall|i: int|
                0 <= i < observations.len() ==> (#[trigger] observations[i]).promise != key {
                assert forall|i: int| 0 <= i < earlier.len() implies (#[trigger] earlier[i]).promise
                    != key by {}
            }
        }
    }
}

/// That some place of `delivered` lets go of `key`.
pub open spec fn lets_go_of(delivered: Seq<DeliveryView>, key: usize) -> bool {
    exists|k: int| 0 <= k < delivered.len() && (#[trigger] delivered[k]).promise == key
}

/// A look at the pending values delivers the entries that leave the table,
/// each once: every delivery lets go of an entry that has left and answers
/// the reply channel of that entry, no two deliveries let go of the same
/// entry, and every entry that has left is let go of.
pub proof fn lemma_what_leaves_is_delivered_once(
    promises: Map<usize, u64>,
    observations: Seq<Observation>,
)
    ensures
        forall|k: int|
            0 <= k < settle(promises, observations).1.len() ==> {
                let done = #[trigger] settle(promises, observations).1[k];
                &&& promises.contains_key(done.promise)
                &&& !settle(promises, observations).0.contains_key(done.promise)
                &&& done.reply.to == promises[done.promise]
            },
        forall|k: int, l: int|
            0 <= k < l < settle(promises, observations).1.len() ==> (#[trigger] settle(
                promises,
                observations,
            ).1[k]).promise != (#[trigger] settle(promises, observations).1[l]).promise,
        forall|key: usize|
            promises.contains_key(key) && !(#[trigger] settle(
                promises,
                observations,
            ).0.contains_key(key)) ==> lets_go_of(settle(promises, observations).1, key),
    decreases observations.len(),
{
    if observations.len() > 0 {
        let earlier = observations.drop_last();
        lemma_what_leaves_is_delivered_once(promises, earlier);
        lemma_every_answer_has_its_settlement(promises, earlier);
        let left = settle(promises, earlier);
        let now = settle(promises, observations);
        assert forall|key: usize|
            promises.contains_key(key) && !(#[trigger] now.0.contains_key(key)) implies lets_go_of(
            now.1,
            key,
        ) by {
            if left.0.contains_key(key) {
                assert(now.1[now.1.len() - 1].promise == key);
            } else {
                let k = choose|k: int| 0 <= k < left.1.len() && (#[trigger] left.1[k]).promise == key;
                assert(now.1[k] == left.1[k]);
            }
        }
    }
}

/// A look at the pending values answers exactly the entries that it takes
/// out: of a finite table, the entries that are left and the answers
/// together are as many as the entries were.
pub proof fn lemma_every_entry_is_left_or_answered(
    promises: Map<usize, u64>,
    observations: Seq<Observation>,
)
    requires
        promises.dom().finite(),
    ensures
        settle(promises, observations).0.dom().finite(),
        settle(promises, observations).0.len() + settle(promises, observations).1.len()
            == promises.len(),
    decreases observations.len(),
{
    if observations.len() > 0 {
        lemma_every_entry_is_left_or_answered(promises, observations.drop_last());
    }
}

// The end of a worker.

/// Once a `Stop` has been taken, every command is refused with
/// `DeadRuntimeError`, and the worker stays as the `Stop` left it.
pub proof fn lemma_stop_then_every_command_is_refused(
    pre: WorkerView,
    reply: u64,
    post: WorkerView,
    action: ActionView,
    message: MessageView,
    later_post: WorkerView,
    later_action: ActionView,
)
    requires
        next(pre, EventView::Message(MessageView::Stop(reply)), post, action),
        next(post, EventView::Message(message), later_post, later_action),
    ensures
        post.stopped,
        post.finished(),
        later_action == ActionView::Refuse(message, ErrorView::dead_runtime_error()),
        later_post == post,
{
}

/// A `Stop` hands over every entry of the pending table, each once, and
/// leaves the table empty.
pub proof fn lemma_stop_hands_over_every_entry(
    pre: WorkerView,
    reply: u64,
    post: WorkerView,
    action: ActionView,
)
    requires
        !pre.stopped,
        next(pre, EventView::Message(MessageView::Stop(reply)), post, action),
    ensures
        action is Stop,
        action->reply == reply,
        action->runtime_id == pre.runtime_id,
        action->abandoned.len() == pre.promises.len(),
        forall|key: usize| #[trigger]
            pre.promises.contains_key(key) ==> action->abandoned.contains(
                (key, pre.promises[key]),
            ),
        post.promises == Map::<usize, u64>::empty(),
        post.stopped,
{
    let abandoned = action->abandoned;
    lemma_key_order_counts(pre.promises, abandoned);
    assert forall|key: usize| #[trigger] pre.promises.contains_key(key) implies abandoned.contains(
        (key, pre.promises[key]),
    ) by {
        let i = choose|i: int| 0 <= i < abandoned.len() && (#[trigger] abandoned[i]).0 == key;
        assert(abandoned[i] == (key, pre.promises[key]));
    }
}

/// A worker that has stopped changes no more, whatever it is told, and asks
/// for nothing to be executed or parked.
pub proof fn lemma_stopped_worker_is_inert(
    pre: WorkerView,
    event: EventView,
    post: WorkerView,
    action: ActionView,
)
    requires
        pre.stopped,
        next(pre, event, post, action),
    ensures
        post == pre,
        action == refusal(event),
        !(action is Evaluate),
        !(action is Apply),
        !(action is Park),
{
}

/// Only a `Stop` stops a worker, and nothing changes the instance that a
/// worker belongs to.
pub proof fn lemma_only_stop_stops(
    pre: WorkerView,
    event: EventView,
    post: WorkerView,
    action: ActionView,
)
    requires
        !pre.stopped,
        next(pre, event, post, action),
    ensures
        post.stopped <==> event matches EventView::Message(MessageView::Stop(_)),
        post.runtime_id == pre.runtime_id,
{
}

// Results of callbacks.

/// A result that the engine takes for no callback of its own comes back as
/// an execution error for the owner, with the engine's diagnostic, and the
/// worker goes on: nothing pending is lost, and the next command is taken.
pub proof fn lemma_failed_delivery_is_reported(
    pre: WorkerView,
    message: Seq<char>,
    post: WorkerView,
    action: ActionView,
    code: Seq<char>,
    later_reply: u64,
    later_post: WorkerView,
    later_action: ActionView,
)
    requires
        !pre.stopped,
        next(pre, EventView::Applied(Some(message)), post, action),
        next(post, EventView::Message(MessageView::Eval(code, later_reply)), later_post, later_action),
    ensures
        action == ActionView::Report(ErrorView::execution_error(Some(message))),
        post.promises == pre.promises,
        !post.stopped,
        later_action == ActionView::Evaluate(code, later_reply),
{
}

// The run loop.

/// Every command but a `Stop`, and every report of what the engine did with
/// one, arms the event loop. Only a pass that ends without work of its own
/// disarms it.
pub proof fn lemma_event_loop_is_armed_by_commands(
    pre: WorkerView,
    event: EventView,
    post: WorkerView,
    action: ActionView,
)
    requires
        !pre.stopped,
        next(pre, event, post, action),
    ensures
        event matches EventView::Message(message) && !(message is Stop) ==> post.poll_event_loop,
        event is Evaluated || event is Applied ==> post.poll_event_loop,
        event matches EventView::Polled(_, completed) ==> post.poll_event_loop == (
        pre.poll_event_loop && !completed),
        event is Closed ==> post.poll_event_loop == pre.poll_event_loop && post.closed,
{
}

/// The run loop is over exactly when there is nothing that it may do next:
/// after a `Stop`, or when the queue is closed and the event loop disarmed.
/// A worker that has just been made is not there.
pub proof fn lemma_run_ends_when_nothing_is_left(worker: WorkerView, runtime_id: usize)
    ensures
        worker.finished() <==> !worker.turn().receive && !worker.turn().poll,
        worker.finished() <==> worker.stopped || (worker.closed && !worker.poll_event_loop),
        !WorkerView::initial(runtime_id).finished(),
{
}

// What holds of every step, and of whole runs.

/// That a failure, where `result` is one, is well formed.
pub open spec fn failure_is_well_formed(result: Result<Seq<char>, ErrorView>) -> bool {
    result matches Err(error) ==> error.well_formed()
}

/// Whatever failure a step tells of is well formed: it carries a value
/// exactly when it is a rejection, and a diagnostic only when it is a failed
/// execution.
pub proof fn lemma_every_failure_is_well_formed(
    pre: WorkerView,
    event: EventView,
    post: WorkerView,
    action: ActionView,
)
    requires
        next(pre, event, post, action),
    ensures
        action matches ActionView::Reply(reply) ==> failure_is_well_formed(reply.result),
        action matches ActionView::Deliver(delivered) ==> forall|k: int|
            0 <= k < delivered.len() ==> failure_is_well_formed(
                (#[trigger] delivered[k]).reply.result,
            ),
        action matches ActionView::Report(error) ==> error.well_formed(),
        action matches ActionView::Refuse(_, error) ==> error.well_formed(),
{
    if !pre.stopped {
        if let EventView::Polled(observations, _) = event {
            lemma_every_answer_has_its_settlement(pre.promises, observations);
            let now = settle(pre.promises, observations);
            assert forall|k: int| 0 <= k < now.1.len() implies failure_is_well_formed(
                (#[trigger] now.1[k]).reply.result,
            ) by {
                assert(has_settlement(pre.promises, observations, now.0, now.1[k]));
            }
        }
    }
}

/// A worker that has just been made is sound.
pub proof fn lemma_new_worker_is_sound(runtime_id: usize)
    ensures
        WorkerView::initial(runtime_id).sound(),
{
}

/// Every step keeps a worker sound.
pub proof fn lemma_steps_keep_a_worker_sound(
    pre: WorkerView,
    event: EventView,
    post: WorkerView,
    action: ActionView,
)
    requires
        pre.sound(),
        next(pre, event, post, action),
    ensures
        post.sound(),
{
    if !pre.stopped {
        if let EventView::Polled(observations, _) = event {
            lemma_every_entry_is_left_or_answered(pre.promises, observations);
        }
    }
}

/// That a worker runs from `states[0]` through `events`: each event leads
/// from one state to the next and calls for the action of its place.
pub open spec fn is_run(
    states: Seq<WorkerView>,
    events: Seq<EventView>,
    actions: Seq<ActionView>,
) -> bool {
    &&& states.len() == events.len() + 1
    &&& actions.len() == events.len()
    &&& forall|i: int|
        0 <= i < events.len() ==> next(states[i], #[trigger] events[i], states[i + 1], actions[i])
}

/// A worker that has stopped has stopped for good: whatever comes later, it
/// stays as it is and answers with a refusal.
pub proof fn lemma_stopped_for_good(
    states: Seq<WorkerView>,
    events: Seq<EventView>,
    actions: Seq<ActionView>,
    from: int,
    later: int,
)
    requires
        is_run(states, events, actions),
        0 <= from <= later < events.len(),
        states[from].stopped,
    ensures
        states[later + 1] == states[from],
        actions[later] == refusal(events[later]),
    decreases later - from,
{
    if from < later {
        lemma_stopped_for_good(states, events, actions, from, later - 1);
    }
}

/// After a `Stop`, every command that a worker is handed, however much
/// later, is refused with `DeadRuntimeError`.
pub proof fn lemma_no_command_is_taken_after_a_stop(
    states: Seq<WorkerView>,
    events: Seq<EventView>,
    actions: Seq<ActionView>,
    stop: int,
    later: int,
    message: MessageView,
)
    requires
        is_run(states, events, actions),
        0 <= stop < later < events.len(),
        events[stop] is Message,
        events[stop]->Message_0 is Stop,
        events[later] == EventView::Message(message),
    ensures
        actions[later] == ActionView::Refuse(message, ErrorView::dead_runtime_error()),
{
    lemma_stopped_for_good(states, events, actions, stop + 1, later);
}

/// A step is determined by the worker and the event, but for the key under
/// which a pending value is parked.
pub proof fn lemma_step_is_determined(
    pre: WorkerView,
    event: EventView,
    post: WorkerView,
    action: ActionView,
    other_post: WorkerView,
    other_action: ActionView,
)
    requires
        next(pre, event, post, action),
        next(pre, event, other_post, other_action),
        pre.stopped || !(event matches EventView::Evaluated(_, EvaluationView::Promise)),
    ensures
        post == other_post,
        action == other_action,
{
    if !pre.stopped && event matches EventView::Message(MessageView::Stop(_)) {
        lemma_key_order_is_unique(pre.promises, action->abandoned, other_action->abandoned);
    }
}

} // verus!
