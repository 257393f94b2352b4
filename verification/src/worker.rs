//! The worker: the one owner of an engine instance, as a state machine.
//!
//! The shell around it owns the engine and the channels. It hands the worker
//! one [`Event`] at a time and carries out the [`Action`] that [`run`]
//! answers with. A reply channel is known here by the number that the shell
//! keeps it under, and a pending value by the key that it was parked under.

use crate::error::{Error, ErrorView};
use crate::json::{json_text, render};
use crate::laws::lemma_steps_keep_a_worker_sound;
use crate::script::{apply_reply_script, apply_reply_script_text};
use crate::slots::{in_key_order, slab_entries, slab_insert, slab_iter, slab_new, slab_try_remove};
use serde_json::Value;
use slab::Slab;
use vstd::prelude::*;

verus! {

/// A command to a worker.
#[derive(Debug, PartialEq, Eq)]
pub enum Message {
    /// Settle the callback of this application id: resolve it with the value
    /// of an `Ok`, reject it with that of an `Err`.
    ApplyReply(String, Result<String, String>),
    /// Evaluate this code and answer on this reply channel.
    Eval(String, u64),
    /// Stop, and say so on this reply channel.
    Stop(u64),
}

/// The mathematical content of a [`Message`].
pub enum MessageView {
    ApplyReply(Seq<char>, Result<Seq<char>, Seq<char>>),
    Eval(Seq<char>, u64),
    Stop(u64),
}

impl View for Message {
    type V = MessageView;

    open spec fn view(&self) -> MessageView {
        match *self {
            Message::ApplyReply(application_id, Ok(value)) => MessageView::ApplyReply(
                application_id@,
                Ok(value@),
            ),
            Message::ApplyReply(application_id, Err(value)) => MessageView::ApplyReply(
                application_id@,
                Err(value@),
            ),
            Message::Eval(code, reply) => MessageView::Eval(code@, reply),
            Message::Stop(reply) => MessageView::Stop(reply),
        }
    }
}

/// What became of a piece of code that the engine was given.
#[derive(Debug, PartialEq, Eq)]
pub enum Evaluation {
    /// It failed at once, with this diagnostic.
    Threw(String),
    /// It gave a value at once: the value in the interchange format, or
    /// `None` where the value has no place in that format.
    Immediate(Option<Value>),
    /// It gave a pending value.
    Promise,
}

/// The mathematical content of an [`Evaluation`].
pub enum EvaluationView {
    Threw(Seq<char>),
    Immediate(Option<Value>),
    Promise,
}

impl View for Evaluation {
    type V = EvaluationView;

    open spec fn view(&self) -> EvaluationView {
        match *self {
            Evaluation::Threw(message) => EvaluationView::Threw(message@),
            Evaluation::Immediate(decoded) => EvaluationView::Immediate(decoded),
            Evaluation::Promise => EvaluationView::Promise,
        }
    }
}

/// The state in which a pending value was found. A settled one comes with
/// its value in the interchange format, or with `None` where the value has no
/// place in that format.
#[derive(Debug, PartialEq, Eq)]
pub enum Settlement {
    Pending,
    Fulfilled(Option<Value>),
    Rejected(Option<Value>),
}

/// One pending value as the shell found it after a pass of the event loop.
#[derive(Debug, PartialEq, Eq)]
pub struct Observation {
    /// The key that the value was parked under.
    pub promise: usize,
    pub state: Settlement,
}

/// What the shell reports to the worker.
#[derive(Debug, PartialEq, Eq)]
pub enum Event {
    /// A command came off the queue.
    Message(Message),
    /// The code of the `Eval` with this reply channel was executed.
    Evaluated(u64, Evaluation),
    /// The script of an `ApplyReply` was executed: it went through, or it
    /// failed with this diagnostic.
    Applied(Option<String>),
    /// The event loop was driven once, and the pending values were looked
    /// at. The flag says that the loop has no more work of its own.
    Polled(Vec<Observation>, bool),
    /// The queue is closed and empty.
    Closed,
}

/// The mathematical content of an [`Event`].
pub enum EventView {
    Message(MessageView),
    Evaluated(u64, EvaluationView),
    Applied(Option<Seq<char>>),
    Polled(Seq<Observation>, bool),
    Closed,
}

impl View for Event {
    type V = EventView;

    open spec fn view(&self) -> EventView {
        match *self {
            Event::Message(message) => EventView::Message(message@),
            Event::Evaluated(reply, evaluation) => EventView::Evaluated(reply, evaluation@),
            Event::Applied(Some(message)) => EventView::Applied(Some(message@)),
            Event::Applied(None) => EventView::Applied(None),
            Event::Polled(observations, completed) => EventView::Polled(observations@, completed),
            Event::Closed => EventView::Closed,
        }
    }
}

/// The answer to one `Eval`.
#[derive(Debug, PartialEq, Eq)]
pub struct Reply {
    /// The reply channel of the `Eval`.
    pub to: u64,
    pub result: Result<String, Error>,
}

/// The mathematical content of a [`Reply`].
pub struct ReplyView {
    pub to: u64,
    pub result: Result<Seq<char>, ErrorView>,
}

/// The mathematical content of an outcome: a text, or a failure.
pub open spec fn result_view(result: Result<String, Error>) -> Result<Seq<char>, ErrorView> {
    match result {
        Ok(text) => Ok(text@),
        Err(error) => Err(error@),
    }
}

impl View for Reply {
    type V = ReplyView;

    open spec fn view(&self) -> ReplyView {
        ReplyView { to: self.to, result: result_view(self.result) }
    }
}

/// A pending value that has settled: the key that it was parked under, and
/// the answer to its `Eval`.
#[derive(Debug, PartialEq, Eq)]
pub struct Delivery {
    pub promise: usize,
    pub reply: Reply,
}

/// The mathematical content of a [`Delivery`].
pub struct DeliveryView {
    pub promise: usize,
    pub reply: ReplyView,
}

impl View for Delivery {
    type V = DeliveryView;

    open spec fn view(&self) -> DeliveryView {
        DeliveryView { promise: self.promise, reply: self.reply@ }
    }
}

/// The mathematical content of a list of deliveries.
pub open spec fn deliveries_view(deliveries: Seq<Delivery>) -> Seq<DeliveryView> {
    deliveries.map_values(|delivery: Delivery| delivery@)
}

/// What the shell is to do next.
#[derive(Debug, PartialEq, Eq)]
pub enum Action {
    /// Execute this code in the engine, and report `Event::Evaluated` with
    /// this reply channel.
    Evaluate(String, u64),
    /// Execute this script in the engine, and report `Event::Applied`.
    Apply(String),
    /// Keep the pending value that the code gave under this key.
    Park(usize),
    /// Send this answer on its reply channel.
    Reply(Reply),
    /// For each of these, let go of the pending value that is kept under
    /// the key, and send the answer on its reply channel.
    Deliver(Vec<Delivery>),
    /// Tell the owner of the instance of this failure.
    Report(Error),
    /// Close the queue, answer this reply channel with success, and take
    /// this instance out of the registry. The entries of the pending table
    /// are handed over: nothing will settle them any more.
    Stop { reply: u64, runtime_id: usize, abandoned: Vec<(usize, u64)> },
    /// Tell the sender of this command that it failed with this error: the
    /// command was not processed.
    Refuse(Message, Error),
    /// Nothing.
    Idle,
}

/// The mathematical content of an [`Action`].
pub enum ActionView {
    Evaluate(Seq<char>, u64),
    Apply(Seq<char>),
    Park(usize),
    Reply(ReplyView),
    Deliver(Seq<DeliveryView>),
    Report(ErrorView),
    Stop { reply: u64, runtime_id: usize, abandoned: Seq<(usize, u64)> },
    Refuse(MessageView, ErrorView),
    Idle,
}

impl View for Action {
    type V = ActionView;

    open spec fn view(&self) -> ActionView {
        match *self {
            Action::Evaluate(code, reply) => ActionView::Evaluate(code@, reply),
            Action::Apply(script) => ActionView::Apply(script@),
            Action::Park(key) => ActionView::Park(key),
            Action::Reply(reply) => ActionView::Reply(reply@),
            Action::Deliver(deliveries) => ActionView::Deliver(deliveries_view(deliveries@)),
            Action::Report(error) => ActionView::Report(error@),
            Action::Stop { reply, runtime_id, abandoned } => ActionView::Stop {
                reply,
                runtime_id,
                abandoned: abandoned@,
            },
            Action::Refuse(message, error) => ActionView::Refuse(message@, error@),
            Action::Idle => ActionView::Idle,
        }
    }
}

/// What the run loop may do next. It waits for whichever of the two comes
/// first, and with neither of them it ends.
#[derive(Clone, Copy, Debug, PartialEq, Eq, Structural)]
pub struct Turn {
    /// Take the next command off the queue.
    pub receive: bool,
    /// Drive the event loop.
    pub poll: bool,
}

/// A worker: the pending table and the switches of its run loop.
pub struct Worker {
    runtime_id: usize,
    promises: Slab<u64>,
    poll_event_loop: bool,
    closed: bool,
    stopped: bool,
}

/// The mathematical content of a [`Worker`].
pub struct WorkerView {
    /// The id of the instance in the registry.
    pub runtime_id: usize,
    /// The pending table: for the key of each pending value the reply
    /// channel that is owed its settlement.
    pub promises: Map<usize, u64>,
    /// Whether the event loop is to be driven.
    pub poll_event_loop: bool,
    /// Whether the queue is closed and empty.
    pub closed: bool,
    /// Whether a `Stop` was accepted.
    pub stopped: bool,
}

impl View for Worker {
    type V = WorkerView;

    closed spec fn view(&self) -> WorkerView {
        WorkerView {
            runtime_id: self.runtime_id,
            promises: slab_entries(self.promises),
            poll_event_loop: self.poll_event_loop,
            closed: self.closed,
            stopped: self.stopped,
        }
    }
}

impl WorkerView {
    /// A worker that has just been made: nothing is pending, and the event
    /// loop is to be driven.
    pub open spec fn initial(runtime_id: usize) -> WorkerView {
        WorkerView {
            runtime_id,
            promises: Map::empty(),
            poll_event_loop: true,
            closed: false,
            stopped: false,
        }
    }

    /// What holds of a worker however it was driven: finitely many values
    /// are pending, and none once it has stopped.
    pub open spec fn sound(self) -> bool {
        &&& self.promises.dom().finite()
        &&& self.stopped ==> self.promises == Map::<usize, u64>::empty()
    }

    /// The same worker with the event loop to be driven.
    pub open spec fn armed(self) -> WorkerView {
        WorkerView { poll_event_loop: true, ..self }
    }

    /// What the run loop may do next.
    pub open spec fn turn(self) -> Turn {
        Turn {
            receive: !self.stopped && !self.closed,
            poll: !self.stopped && self.poll_event_loop,
        }
    }

    /// Whether the run loop is over: a `Stop` was accepted, or no command can
    /// come any more and the event loop has no work.
    pub open spec fn finished(self) -> bool {
        self.stopped || (self.closed && !self.poll_event_loop)
    }
}

impl Settlement {
    pub open spec fn settled(self) -> bool {
        !(self is Pending)
    }
}

/// The text of a value, where it has one.
pub open spec fn decoded_text(decoded: Option<Value>) -> Option<Seq<char>> {
    match decoded {
        Some(value) => Some(json_text(value)),
        None => None,
    }
}

/// The answer to code that gave a value at once, from the text of the value.
pub open spec fn immediate_result(text: Option<Seq<char>>) -> Result<Seq<char>, ErrorView> {
    match text {
        Some(text) => Ok(text),
        None => Err(ErrorView::conversion_error()),
    }
}

/// The answer to code whose pending value has settled, from the text of the
/// settlement value.
pub open spec fn settled_result(rejected: bool, text: Option<Seq<char>>) -> Result<
    Seq<char>,
    ErrorView,
> {
    match text {
        Some(text) => if rejected {
            Err(ErrorView::promise_rejection(text))
        } else {
            Ok(text)
        },
        None => Err(ErrorView::conversion_error()),
    }
}

/// The answer that a settlement calls for.
pub open spec fn settlement_result(state: Settlement) -> Result<Seq<char>, ErrorView>
    recommends
        state.settled(),
{
    match state {
        Settlement::Fulfilled(decoded) => settled_result(false, decoded_text(decoded)),
        Settlement::Rejected(decoded) => settled_result(true, decoded_text(decoded)),
        Settlement::Pending => Err(ErrorView::conversion_error()),
    }
}

/// What a pending value that was found settled calls for: its key is let
/// go of, and the answer goes to the reply channel that it was parked with.
pub open spec fn delivery(promises: Map<usize, u64>, seen: Observation) -> DeliveryView
    recommends
        seen.state.settled(),
        promises.contains_key(seen.promise),
{
    DeliveryView {
        promise: seen.promise,
        reply: ReplyView { to: promises[seen.promise], result: settlement_result(seen.state) },
    }
}

/// One look at the pending values: every observation of a settled value
/// that is in the table takes its entry out and answers the entry's reply
/// channel, in the order of the observations. Taken are the table that is
/// left and what was delivered.
pub open spec fn settle(promises: Map<usize, u64>, observations: Seq<Observation>) -> (
    Map<usize, u64>,
    Seq<DeliveryView>,
)
    decreases observations.len(),
{
    if observations.len() == 0 {
        (promises, Seq::empty())
    } else {
        let (left, delivered) = settle(promises, observations.drop_last());
        let seen = observations.last();
        if seen.state.settled() && left.contains_key(seen.promise) {
            (left.remove(seen.promise), delivered.push(delivery(left, seen)))
        } else {
            (left, delivered)
        }
    }
}

/// The answer that goes to `reply` with `result`.
pub open spec fn answer(reply: u64, result: Result<Seq<char>, ErrorView>) -> ActionView {
    ActionView::Reply(ReplyView { to: reply, result })
}

/// What a worker that has stopped answers to an event: a command is
/// refused, an evaluation is answered as one to a dead instance, and nothing
/// else is done.
pub open spec fn refusal(event: EventView) -> ActionView {
    match event {
        EventView::Message(message) => ActionView::Refuse(
            message,
            ErrorView::dead_runtime_error(),
        ),
        EventView::Evaluated(reply, _) => answer(reply, Err(ErrorView::dead_runtime_error())),
        _ => ActionView::Idle,
    }
}

/// One step of a worker: from `pre` the event leads to `post` and calls for
/// `action`.
///
/// A worker that has stopped stays as it is and refuses. Of the others,
/// - a `Stop` stops the worker and hands the pending table over;
/// - an `Eval` and an `ApplyReply` have their code or script executed;
/// - code that threw or gave a value at once is answered, and code that
///   gave a pending value has its reply channel parked under a free key;
/// - a script that failed is reported;
/// - a look at the pending values answers those that have settled;
/// - and each of these but the `Stop` and the look arms the event loop,
///   which a pass that ends without work of its own disarms.
pub open spec fn next(pre: WorkerView, event: EventView, post: WorkerView, action: ActionView) -> bool {
    if pre.stopped {
        post == pre && action == refusal(event)
    } else {
        match event {
            EventView::Message(MessageView::Stop(reply)) => {
                &&& post == WorkerView { promises: Map::empty(), stopped: true, ..pre }
                &&& action matches ActionView::Stop { reply: to, runtime_id, abandoned }
                &&& to == reply
                &&& runtime_id == pre.runtime_id
                &&& in_key_order(pre.promises, abandoned)
            },
            EventView::Message(MessageView::Eval(code, reply)) => {
                &&& post == pre.armed()
                &&& action == ActionView::Evaluate(code, reply)
            },
            EventView::Message(MessageView::ApplyReply(application_id, result)) => {
                &&& post == pre.armed()
                &&& action == ActionView::Apply(apply_reply_script_text(application_id, result))
            },
            EventView::Evaluated(reply, EvaluationView::Threw(message)) => {
                &&& post == pre.armed()
                &&& action == answer(reply, Err(ErrorView::execution_error(Some(message))))
            },
            EventView::Evaluated(reply, EvaluationView::Immediate(decoded)) => {
                &&& post == pre.armed()
                &&& action == answer(reply, immediate_result(decoded_text(decoded)))
            },
            EventView::Evaluated(reply, EvaluationView::Promise) => {
                &&& action matches ActionView::Park(key)
                &&& !pre.promises.contains_key(key)
                &&& post == WorkerView { promises: pre.promises.insert(key, reply), ..pre.armed() }
            },
            EventView::Applied(None) => {
                &&& post == pre.armed()
                &&& action == ActionView::Idle
            },
            EventView::Applied(Some(message)) => {
                &&& post == pre.armed()
                &&& action == ActionView::Report(ErrorView::execution_error(Some(message)))
            },
            EventView::Polled(observations, completed) => {
                &&& post == WorkerView {
                    promises: settle(pre.promises, observations).0,
                    poll_event_loop: pre.poll_event_loop && !completed,
                    ..pre
                }
                &&& action == ActionView::Deliver(settle(pre.promises, observations).1)
            },
            EventView::Closed => {
                &&& post == WorkerView { closed: true, ..pre }
                &&& action == ActionView::Idle
            },
        }
    }
}

/// The answer to code that gave a value at once: the text of the value, or
/// a conversion error where the value has no text.
pub fn immediate_reply(text: Option<String>) -> (result: Result<String, Error>)
    ensures
        result_view(result) == immediate_result(
            match text {
                Some(text) => Some(text@),
                None => None,
            },
        ),
{
    match text {
        Some(text) => Ok(text),
        None => Err(Error::conversion_error()),
    }
}

/// The answer to code whose pending value has settled: the text of the
/// value where it was fulfilled, a rejection that carries the text where it
/// was rejected, and a conversion error where the value has no text.
pub fn settled_reply(rejected: bool, text: Option<String>) -> (result: Result<String, Error>)
    ensures
        result_view(result) == settled_result(
            rejected,
            match text {
                Some(text) => Some(text@),
                None => None,
            },
        ),
{
    match text {
        Some(text) => if rejected {
            Err(Error::promise_rejection(text))
        } else {
            Ok(text)
        },
        None => Err(Error::conversion_error()),
    }
}

fn decoded_to_text(decoded: &Option<Value>) -> (text: Option<String>)
    ensures
        decoded_text(*decoded) == match text {
            Some(text) => Some(text@),
            None => None::<Seq<char>>,
        },
{
    match decoded {
        Some(value) => Some(render(value)),
        None => None,
    }
}

impl Settlement {
    /// The answer that this state calls for: none while the value is
    /// pending.
    pub fn outcome(&self) -> (outcome: Option<Result<String, Error>>)
        ensures
            outcome is Some <==> self.settled(),
            outcome matches Some(result) ==> result_view(result) == settlement_result(*self),
    {
        match self {
            Settlement::Pending => None,
            Settlement::Fulfilled(decoded) => Some(settled_reply(false, decoded_to_text(decoded))),
            Settlement::Rejected(decoded) => Some(settled_reply(true, decoded_to_text(decoded))),
        }
    }
}

/// Makes the worker of the instance `runtime_id`.
pub fn new(runtime_id: usize) -> (worker: Worker)
    ensures
        worker@ == WorkerView::initial(runtime_id),
        worker@.sound(),
{
    Worker {
        runtime_id,
        promises: slab_new(),
        poll_event_loop: true,
        closed: false,
        stopped: false,
    }
}

impl Worker {
    /// The id of the instance in the registry.
    pub fn runtime_id(&self) -> (runtime_id: usize)
        ensures
            runtime_id == self@.runtime_id,
    {
        self.runtime_id
    }

    /// Whether the event loop is to be driven.
    pub fn poll_event_loop(&self) -> (armed: bool)
        ensures
            armed == self@.poll_event_loop,
    {
        self.poll_event_loop
    }

    /// What the run loop may do next.
    pub fn turn(&self) -> (turn: Turn)
        ensures
            turn == self@.turn(),
    {
        Turn {
            receive: !self.stopped && !self.closed,
            poll: !self.stopped && self.poll_event_loop,
        }
    }

    /// Whether the run loop is over: there is nothing that it may do next.
    pub fn finished(&self) -> (finished: bool)
        ensures
            finished == self@.finished(),
            finished == (!self@.turn().receive && !self@.turn().poll),
    {
        self.stopped || (self.closed && !self.poll_event_loop)
    }

    /// The pending values, by ascending key: each key with the reply channel
    /// that is owed the settlement. Nothing is taken out.
    pub fn pending(&self) -> (entries: Vec<(usize, u64)>)
        ensures
            in_key_order(self@.promises, entries@),
    {
        slab_iter(&self.promises)
    }
}

impl Worker {
    /// Empties the pending table and hands its entries over, by ascending
    /// key.
    fn abandon(&mut self) -> (entries: Vec<(usize, u64)>)
        ensures
            in_key_order(old(self)@.promises, entries@),
            final(self)@ == (WorkerView { promises: Map::empty(), ..old(self)@ }),
    {
        let entries = slab_iter(&self.promises);
        let ghost before = slab_entries(self.promises);
        let mut i: usize = 0;
        while i < entries.len()
            invariant
                i <= entries.len(),
                in_key_order(before, entries@),
                self.runtime_id == old(self).runtime_id,
                self.poll_event_loop == old(self).poll_event_loop,
                self.closed == old(self).closed,
                self.stopped == old(self).stopped,
                forall|key: usize| #[trigger]
                    slab_entries(self.promises).contains_key(key) ==> before.contains_key(key)
                        && forall|j: int| 0 <= j < i ==> (#[trigger] entries[j]).0 != key,
            decreases entries.len() - i,
        {
            let _ = slab_try_remove(&mut self.promises, entries[i].0);
            i = i + 1;
        }
        assert(slab_entries(self.promises) =~= Map::<usize, u64>::empty());
        entries
    }

    /// Takes a command that came off the queue.
    fn process(&mut self, message: Message) -> (action: Action)
        requires
            !old(self)@.stopped,
        ensures
            next(old(self)@, EventView::Message(message@), final(self)@, action@),
    {
        match message {
            Message::Stop(reply) => {
                let abandoned = self.abandon();
                self.stopped = true;
                Action::Stop { reply, runtime_id: self.runtime_id, abandoned }
            },
            Message::Eval(code, reply) => {
                self.poll_event_loop = true;
                Action::Evaluate(code, reply)
            },
            Message::ApplyReply(application_id, result) => {
                self.poll_event_loop = true;
                Action::Apply(apply_reply_script(application_id.as_str(), &result))
            },
        }
    }

    /// Takes what became of the code of an `Eval`: answers at once, or parks
    /// the reply channel until the pending value settles.
    fn evaluated(&mut self, reply: u64, evaluation: Evaluation) -> (action: Action)
        requires
            !old(self)@.stopped,
        ensures
            next(old(self)@, EventView::Evaluated(reply, evaluation@), final(self)@, action@),
    {
        self.poll_event_loop = true;
        let result = match evaluation {
            Evaluation::Threw(message) => Err(Error::execution_error(Some(message))),
            Evaluation::Immediate(decoded) => immediate_reply(decoded_to_text(&decoded)),
            Evaluation::Promise => {
                let key = slab_insert(&mut self.promises, reply);
                return Action::Park(key);
            },
        };
        Action::Reply(Reply { to: reply, result })
    }

    /// Takes what became of the script of an `ApplyReply`.
    fn applied(&mut self, failure: Option<String>) -> (action: Action)
        requires
            !old(self)@.stopped,
        ensures
            next(
                old(self)@,
                EventView::Applied(
                    match failure {
                        Some(message) => Some(message@),
                        None => None,
                    },
                ),
                final(self)@,
                action@,
            ),
    {
        self.poll_event_loop = true;
        match failure {
            Some(message) => Action::Report(Error::execution_error(Some(message))),
            None => Action::Idle,
        }
    }

    /// Takes one look at the pending values after a pass of the event loop:
    /// every settled one leaves the table and is answered.
    fn run_event_loop(&mut self, observations: &Vec<Observation>, completed: bool) -> (delivered:
        Vec<Delivery>)
        ensures
            final(self)@ == (WorkerView {
                promises: settle(old(self)@.promises, observations@).0,
                poll_event_loop: old(self)@.poll_event_loop && !completed,
                ..old(self)@
            }),
            deliveries_view(delivered@) == settle(old(self)@.promises, observations@).1,
    {
        let ghost before = slab_entries(self.promises);
        let mut delivered: Vec<Delivery> = Vec::new();
        let mut i: usize = 0;
        while i < observations.len()
            invariant
                i <= observations.len(),
                self.runtime_id == old(self).runtime_id,
                self.poll_event_loop == old(self).poll_event_loop,
                self.closed == old(self).closed,
                self.stopped == old(self).stopped,
                slab_entries(self.promises) == settle(before, observations@.take(i as int)).0,
                deliveries_view(delivered@) == settle(before, observations@.take(i as int)).1,
            decreases observations.len() - i,
        {
            assert(observations@.take(i + 1).drop_last() =~= observations@.take(i as int));
            let seen = &observations[i];
            if let Some(result) = seen.state.outcome() {
                if let Some(to) = slab_try_remove(&mut self.promises, seen.promise) {
                    delivered.push(
                        Delivery { promise: seen.promise, reply: Reply { to, result } },
                    );
                }
            }
            i = i + 1;
        }
        assert(observations@.take(i as int) =~= observations@);
        if completed {
            self.poll_event_loop = false;
        }
        delivered
    }
}

/// Answers an event on behalf of a worker that has stopped.
fn refuse(event: Event) -> (action: Action)
    ensures
        action@ == refusal(event@),
{
    match event {
        Event::Message(message) => Action::Refuse(message, Error::dead_runtime_error()),
        Event::Evaluated(reply, _) => Action::Reply(
            Reply { to: reply, result: Err(Error::dead_runtime_error()) },
        ),
        _ => Action::Idle,
    }
}

/// Takes one event to a worker and says what the shell is to do.
///
/// A worker that has accepted a `Stop` takes nothing more: it refuses every
/// command with `DeadRuntimeError` and stays as it is. Until then a command
/// is taken in the order in which it is handed over, an evaluation is
/// answered exactly once, at once or when its pending value has settled,
/// and every command arms the event loop again.
pub fn run(worker: &mut Worker, event: Event) -> (action: Action)
    ensures
        next(old(worker)@, event@, final(worker)@, action@),
        old(worker)@.sound() ==> final(worker)@.sound(),
{
    let ghost pre = worker@;
    let ghost happened = event@;
    let action = if worker.stopped {
        refuse(event)
    } else {
        match event {
            Event::Message(message) => worker.process(message),
            Event::Evaluated(reply, evaluation) => worker.evaluated(reply, evaluation),
            Event::Applied(failure) => worker.applied(failure),
            Event::Polled(observations, completed) => Action::Deliver(
                worker.run_event_loop(&observations, completed),
            ),
            Event::Closed => {
                worker.closed = true;
                Action::Idle
            },
        }
    };
    proof {
        if pre.sound() {
            lemma_steps_keep_a_worker_sound(pre, happened, worker@, action@);
        }
    }
    action
}

} // verus!
