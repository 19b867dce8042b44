use std::marker::PhantomData;
use vstd::prelude::*;

use crate::lifecycle::{
    close_calls, ended, ends_run, is_run, is_stop_signal, run_calls, settle_calls, start_calls,
    step_calls, steps_calls, Call, Outcome,
};
use crate::types::{
    ActorId, ActorLabel, ActorState, ErrorRecord, Recover, TheaterError, TheaterResult,
};

verus! {

/// User logic that an actor drives: identity, status, processing of one
/// message, and the lifecycle hooks.
///
/// The spec functions describe a handler's state for the contracts: its
/// identifier, label and status, and the history of the calls the runtime
/// made into it, which each hook, `set_status` and `handle` extend by one.
/// A verified impl overrides them; their bodies are only defaults, so that
/// impls written outside verified code compile, and a generic actor never
/// relies on them. An impl keeps its identifier through `set_status` and
/// `handle`, keeps its label through `set_status`, and leaves its status to
/// the runtime.
pub trait Handler<M>: Sized {
    /// The identifier the handler reports.
    open spec fn spec_id(&self) -> Seq<char> {
        Seq::empty()
    }

    /// The label the handler reports.
    open spec fn spec_label(&self) -> Seq<char> {
        Seq::empty()
    }

    /// The status the handler holds.
    open spec fn spec_status(&self) -> ActorState {
        ActorState::Stopped
    }

    /// The calls made into the handler so far, oldest first.
    open spec fn spec_hooks(&self) -> Seq<Call> {
        Seq::empty()
    }

    /// Whether `handle` on `msg` may return `r` from this handler and leave
    /// `next` behind.
    open spec fn spec_handle(&self, msg: M, next: Self, r: Result<ActorState, TheaterError>) -> bool {
        true
    }

    fn id(&self) -> (r: ActorId)
        ensures
            r@ == self.spec_id(),
    ;

    fn label(&self) -> (r: ActorLabel)
        ensures
            r@ == self.spec_label(),
    ;

    fn status(&self) -> (r: ActorState)
        ensures
            r == self.spec_status(),
    ;

    /// Sets the status; the identifier and the label stay.
    fn set_status(&mut self, state: ActorState)
        ensures
            final(self).spec_status() == state,
            final(self).spec_id() == old(self).spec_id(),
            final(self).spec_label() == old(self).spec_label(),
            final(self).spec_hooks() == old(self).spec_hooks().push(Call::Status(state)),
    ;

    /// Processes one message. `Ok(ActorState::Stopped)` asks the actor to stop;
    /// any other `Ok` state is advisory; an error fails this message only.
    /// The status and the identifier are left to the runtime.
    fn handle(&mut self, msg: M) -> (r: Result<ActorState, TheaterError>)
        ensures
            old(self).spec_handle(msg, *final(self), r),
            final(self).spec_status() == old(self).spec_status(),
            final(self).spec_id() == old(self).spec_id(),
            final(self).spec_hooks() == old(self).spec_hooks().push(Call::Handle),
    ;

    /// Called when a run begins, before any message.
    fn on_start(&mut self)
        ensures
            final(self).spec_status() == old(self).spec_status(),
            final(self).spec_id() == old(self).spec_id(),
            final(self).spec_label() == old(self).spec_label(),
            final(self).spec_hooks() == old(self).spec_hooks().push(Call::Start),
    ;

    /// Called before each message is dispatched.
    fn on_tick(&mut self)
        ensures
            final(self).spec_status() == old(self).spec_status(),
            final(self).spec_id() == old(self).spec_id(),
            final(self).spec_label() == old(self).spec_label(),
            final(self).spec_hooks() == old(self).spec_hooks().push(Call::Tick),
    ;

    /// Called when a run ends on the explicit stop signal.
    fn on_stop(&mut self)
        ensures
            final(self).spec_status() == old(self).spec_status(),
            final(self).spec_id() == old(self).spec_id(),
            final(self).spec_label() == old(self).spec_label(),
            final(self).spec_hooks() == old(self).spec_hooks().push(Call::Stop),
    ;

    /// Called with the error of each failed message.
    fn on_error(&mut self, err: &TheaterError)
        ensures
            final(self).spec_status() == old(self).spec_status(),
            final(self).spec_id() == old(self).spec_id(),
            final(self).spec_label() == old(self).spec_label(),
            final(self).spec_hooks() == old(self).spec_hooks().push(Call::Fail(*err)),
    ;
}

/// Where an actor is in its run.
#[derive(Clone, Copy, Debug, PartialEq, Eq, Structural)]
pub enum Phase {
    /// No run has begun.
    Idle,
    /// Waiting for the next message.
    Receiving,
    /// The run has returned.
    Finished,
}

/// What the driver of a run does next.
#[derive(Debug)]
pub enum Flow {
    /// Wait for the next message.
    Receive,
    /// The run returns this result.
    Return(TheaterResult<ActorState, TheaterError>),
}

/// The result a run returns when it ended with this outcome.
pub open spec fn end_state(o: Outcome) -> ActorState {
    if is_stop_signal(o) {
        ActorState::Terminating
    } else {
        ActorState::Stopped
    }
}

/// The outcome that a result of `handle` stands for.
pub open spec fn outcome_of(res: Result<ActorState, TheaterError>) -> Outcome {
    match res {
        Ok(s) => Outcome::Handled(s),
        Err(e) => Outcome::Failed(e),
    }
}

/// The error records after one message with outcome `o`: one more, holding
/// the error and `context`, where it failed; the same otherwise.
pub open spec fn log_after(
    before: Seq<ErrorRecord<TheaterError>>,
    after: Seq<ErrorRecord<TheaterError>>,
    o: Outcome,
    context: Seq<char>,
) -> bool {
    match o {
        Outcome::Handled(_) => after == before,
        Outcome::Failed(e) => {
            &&& after.len() == before.len() + 1
            &&& after.drop_last() == before
            &&& after.last().error == e
            &&& after.last().context@ == context
        },
    }
}

/// The handler's status after a message with outcome `o`, from `before`: the
/// stop signal leaves it `Terminating`; a failure leaves it `Running`, or
/// `Stopped` under the early-stop policy; any other state leaves it as it was.
pub open spec fn status_after(o: Outcome, stop_early: bool, before: ActorState) -> ActorState {
    match o {
        Outcome::Handled(s) => if s == ActorState::Stopped {
            ActorState::Terminating
        } else {
            before
        },
        Outcome::Failed(_) => if stop_early {
            ActorState::Stopped
        } else {
            ActorState::Running
        },
    }
}

/// An actor: a handler, its early-stop policy, the error records of its
/// failed messages, and a ghost record of the current run: where the run
/// begins in the handler's history of calls, the policy it began with, and
/// the outcomes of the messages it dispatched.
pub struct ActorImpl<H, M> {
    handler: H,
    stop_early: bool,
    phase: Phase,
    log: Vec<ErrorRecord<TheaterError>>,
    start: Ghost<nat>,
    outcomes: Ghost<Seq<Outcome>>,
    policy: Ghost<bool>,
    _m: PhantomData<M>,
}

impl<H: Handler<M>, M> ActorImpl<H, M> {
    /// The handler the actor drives.
    pub closed spec fn spec_handler(&self) -> H {
        self.handler
    }

    /// Whether a failed message ends the run.
    pub closed spec fn spec_stop_early(&self) -> bool {
        self.stop_early
    }

    pub closed spec fn spec_phase(&self) -> Phase {
        self.phase
    }

    /// Error records not yet taken, oldest first.
    pub closed spec fn spec_log(&self) -> Seq<ErrorRecord<TheaterError>> {
        self.log@
    }

    /// Where the current run begins in the handler's history of calls.
    pub closed spec fn spec_start(&self) -> nat {
        self.start@
    }

    /// The outcomes of the messages dispatched in the current run, in order.
    pub closed spec fn spec_outcomes(&self) -> Seq<Outcome> {
        self.outcomes@
    }

    /// The early-stop policy the current run began with.
    pub closed spec fn spec_policy(&self) -> bool {
        self.policy@
    }

    /// The calls made into the handler in the current run, in order: its
    /// history from where the run began.
    pub open spec fn spec_calls(&self) -> Seq<Call> {
        self.spec_handler().spec_hooks().skip(self.spec_start() as int)
    }

    /// The handler's history agrees with the model of a run: while
    /// receiving, the calls of its start and of each dispatched message, none
    /// of which ended it; once finished, the calls of the whole run.
    pub open spec fn consistent(&self) -> bool {
        let os = self.spec_outcomes();
        let p = self.spec_policy();
        let cs = self.spec_calls();
        &&& self.spec_start() <= self.spec_handler().spec_hooks().len()
        &&& is_run(os, p)
        &&& match self.spec_phase() {
            Phase::Idle => cs.len() == 0 && os.len() == 0,
            Phase::Receiving => {
                &&& self.spec_stop_early() == p
                &&& !ended(os, p)
                &&& cs == start_calls() + steps_calls(os, p)
            },
            Phase::Finished => cs == run_calls(os, p),
        }
    }

    /// `other` holds the same run as this actor, whatever its handler.
    pub open spec fn same_run(&self, other: &Self) -> bool {
        &&& other.spec_stop_early() == self.spec_stop_early()
        &&& other.spec_phase() == self.spec_phase()
        &&& other.spec_log() == self.spec_log()
        &&& other.spec_start() == self.spec_start()
        &&& other.spec_outcomes() == self.spec_outcomes()
        &&& other.spec_policy() == self.spec_policy()
    }

    /// `next` is this receiving actor once it settled the result `res` of
    /// `handle`, returning `r`.
    pub open spec fn settled(&self, next: &Self, res: Result<ActorState, TheaterError>, r: Flow) -> bool {
        let o = outcome_of(res);
        let stop_early = self.spec_stop_early();
        let handler = self.spec_handler();
        &&& next.spec_outcomes() == self.spec_outcomes().push(o)
        &&& next.spec_handler().spec_hooks() == handler.spec_hooks() + settle_calls(o, stop_early)
        &&& next.spec_start() == self.spec_start()
        &&& next.spec_policy() == self.spec_policy()
        &&& log_after(self.spec_log(), next.spec_log(), o, handler.spec_label())
        &&& next.spec_handler().spec_status() == status_after(o, stop_early, handler.spec_status())
        &&& next.spec_handler().spec_id() == handler.spec_id()
        &&& next.spec_handler().spec_label() == handler.spec_label()
        &&& next.spec_stop_early() == stop_early
        &&& if ends_run(o, stop_early) {
            &&& next.spec_phase() == Phase::Finished
            &&& r matches Flow::Return(res) && res.0 == Ok::<ActorState, TheaterError>(
                end_state(o),
            )
        } else {
            &&& next.spec_phase() == Phase::Receiving
            &&& r is Receive
        }
    }

    /// `next` is this receiving actor once it dispatched `msg`: `on_tick`
    /// fired, `handle` returned `res` on `msg`, and the actor settled it,
    /// returning `r`.
    pub open spec fn delivered_to(&self, msg: M, next: &Self, res: Result<ActorState, TheaterError>, r: Flow) -> bool {
        exists|ticked: H, mid: Self|
            {
                let h = self.spec_handler();
                &&& ticked.spec_hooks() == h.spec_hooks().push(Call::Tick)
                &&& ticked.spec_status() == h.spec_status()
                &&& ticked.spec_id() == h.spec_id()
                &&& #[trigger] ticked.spec_handle(msg, mid.spec_handler(), res)
                &&& mid.same_run(self)
                &&& mid.spec_handler().spec_hooks() == ticked.spec_hooks().push(Call::Handle)
                &&& mid.spec_handler().spec_status() == h.spec_status()
                &&& mid.spec_handler().spec_id() == h.spec_id()
                &&& mid.settled(next, res, r)
            }
    }

    /// Builds an idle actor around `handler`, with the early-stop policy on.
    /// Nothing is called on the handler.
    pub fn new(handler: H) -> (r: Self)
        ensures
            r.spec_handler() == handler,
            r.spec_stop_early(),
            r.spec_phase() == Phase::Idle,
            r.spec_log() == Seq::<ErrorRecord<TheaterError>>::empty(),
            r.spec_calls() == Seq::<Call>::empty(),
            r.spec_outcomes() == Seq::<Outcome>::empty(),
            r.consistent(),
    {
        let ghost len = handler.spec_hooks().len();
        let r = ActorImpl {
            handler,
            stop_early: true,
            phase: Phase::Idle,
            log: Vec::new(),
            start: Ghost(len),
            outcomes: Ghost(Seq::empty()),
            policy: Ghost(true),
            _m: PhantomData,
        };
        assert(r.spec_calls() =~= Seq::<Call>::empty());
        r
    }

    /// Sets the early-stop policy. A run under way keeps the policy it
    /// began with in its record, so only outside a run is the record kept
    /// in agreement.
    pub fn set_early_stop(&mut self, val: bool)
        ensures
            final(self).spec_stop_early() == val,
            final(self).spec_handler() == old(self).spec_handler(),
            final(self).spec_phase() == old(self).spec_phase(),
            final(self).spec_log() == old(self).spec_log(),
            final(self).spec_start() == old(self).spec_start(),
            final(self).spec_outcomes() == old(self).spec_outcomes(),
            final(self).spec_policy() == old(self).spec_policy(),
            old(self).consistent() && old(self).spec_phase() != Phase::Receiving
                ==> final(self).consistent(),
    {
        self.stop_early = val;
    }

    /// Whether a failed message ends the run.
    pub fn early_stop(&self) -> (r: bool)
        ensures
            r == self.spec_stop_early(),
    {
        self.stop_early
    }

    /// Where the actor is in its run.
    pub fn phase(&self) -> (r: Phase)
        ensures
            r == self.spec_phase(),
    {
        self.phase
    }

    /// The handler's identifier.
    pub fn id(&self) -> (r: ActorId)
        ensures
            r@ == self.spec_handler().spec_id(),
    {
        self.handler.id()
    }

    /// The handler's label.
    pub fn label(&self) -> (r: ActorLabel)
        ensures
            r@ == self.spec_handler().spec_label(),
    {
        self.handler.label()
    }

    /// The handler's status.
    pub fn status(&self) -> (r: ActorState)
        ensures
            r == self.spec_handler().spec_status(),
    {
        self.handler.status()
    }

    /// A reference to the handler.
    pub fn handler(&self) -> (r: &H)
        ensures
            *r == self.spec_handler(),
    {
        &self.handler
    }

    /// Hands out the error records logged so far, oldest first, and clears them.
    pub fn take_log(&mut self) -> (r: Vec<ErrorRecord<TheaterError>>)
        ensures
            r@ == old(self).spec_log(),
            final(self).spec_log() == Seq::<ErrorRecord<TheaterError>>::empty(),
            final(self).spec_handler() == old(self).spec_handler(),
            final(self).spec_stop_early() == old(self).spec_stop_early(),
            final(self).spec_phase() == old(self).spec_phase(),
            final(self).spec_start() == old(self).spec_start(),
            final(self).spec_outcomes() == old(self).spec_outcomes(),
            final(self).spec_policy() == old(self).spec_policy(),
            old(self).consistent() ==> final(self).consistent(),
    {
        let mut taken = Vec::new();
        std::mem::swap(&mut taken, &mut self.log);
        taken
    }

    /// Begins a run: the handler goes to `Starting`, `on_start` fires, and the
    /// handler goes to `Started`, ready to receive. The run keeps the current
    /// early-stop policy.
    pub fn begin(&mut self)
        ensures
            final(self).spec_handler().spec_hooks() == old(self).spec_handler().spec_hooks()
                + start_calls(),
            final(self).spec_start() == old(self).spec_handler().spec_hooks().len(),
            final(self).spec_calls() == start_calls(),
            final(self).spec_phase() == Phase::Receiving,
            final(self).spec_outcomes() == Seq::<Outcome>::empty(),
            final(self).spec_policy() == old(self).spec_stop_early(),
            final(self).spec_stop_early() == old(self).spec_stop_early(),
            final(self).spec_log() == old(self).spec_log(),
            final(self).spec_handler().spec_status() == ActorState::Started,
            final(self).spec_handler().spec_id() == old(self).spec_handler().spec_id(),
            final(self).spec_handler().spec_label() == old(self).spec_handler().spec_label(),
            final(self).consistent(),
    {
        let ghost h0 = self.handler.spec_hooks();
        self.start = Ghost(h0.len());
        self.handler.set_status(ActorState::Starting);
        self.handler.on_start();
        self.handler.set_status(ActorState::Started);
        self.phase = Phase::Receiving;
        self.outcomes = Ghost(Seq::empty());
        self.policy = Ghost(self.stop_early);
        assert(self.handler.spec_hooks() =~= h0 + start_calls());
        assert(self.spec_calls() =~= start_calls());
        assert(start_calls() + steps_calls(Seq::<Outcome>::empty(), self.stop_early) =~= start_calls());
    }

    /// Dispatches one received message: `on_tick` fires, `handle` processes
    /// the message, and [`ActorImpl::settle`] acts on its result. Outside a
    /// run the message is dropped and nothing is called.
    pub fn deliver(&mut self, msg: M) -> (r: Flow)
        ensures
            old(self).spec_phase() != Phase::Receiving ==> {
                &&& *final(self) == *old(self)
                &&& r matches Flow::Return(res) && res.0 == Ok::<ActorState, TheaterError>(
                    ActorState::Stopped,
                )
            },
            old(self).spec_phase() == Phase::Receiving ==> exists|
                res: Result<ActorState, TheaterError>,
            |
                {
                    let o = outcome_of(res);
                    &&& #[trigger] old(self).delivered_to(msg, final(self), res, r)
                    &&& final(self).spec_handler().spec_hooks() == old(
                        self,
                    ).spec_handler().spec_hooks() + step_calls(o, old(self).spec_stop_early())
                },
            old(self).consistent() ==> final(self).consistent(),
    {
        if self.phase != Phase::Receiving {
            return Flow::Return(TheaterResult(Ok(ActorState::Stopped)));
        }
        let ghost before = *self;
        self.handler.on_tick();
        let ghost ticked = self.handler;
        let res = self.handler.handle(msg);
        let ghost mid = *self;
        let ghost res0 = res;
        let r = self.settle(res);
        proof {
            let o = outcome_of(res0);
            let p = before.spec_policy();
            let os = before.spec_outcomes();
            let h0 = before.spec_handler().spec_hooks();
            let st = before.spec_start() as int;
            assert(mid.same_run(&before));
            assert(before.delivered_to(msg, self, res0, r));
            assert(self.spec_handler().spec_hooks() =~= h0 + step_calls(o, before.spec_stop_early()));
            if before.consistent() {
                assert(os.push(o).drop_last() =~= os);
                assert(self.spec_calls() =~= before.spec_calls() + step_calls(o, p));
                assert(start_calls() + steps_calls(os, p) + step_calls(o, p) =~= start_calls()
                    + steps_calls(os.push(o), p));
                assert forall|i: int| 0 <= i < os.push(o).len() - 1 implies !ends_run(
                    #[trigger] os.push(o)[i],
                    p,
                ) by {
                    assert(os.push(o)[i] == os[i]);
                    if i == os.len() - 1 {
                        assert(!ended(os, p));
                    }
                }
            }
        }
        r
    }

    /// Acts on the result `res` of `handle` for the message just dispatched.
    /// The explicit stop signal moves the handler to `Terminating`, fires
    /// `on_stop` and ends the run. A failure fires `on_error`, logs one record
    /// with the handler's label as context and recovers the handler to
    /// `Running`; under the early-stop policy the handler then goes to
    /// `Stopped` and the run ends. Any other state is advisory and the run
    /// goes on. A run's result is never an error. Outside a run nothing is
    /// called.
    pub fn settle(&mut self, res: Result<ActorState, TheaterError>) -> (r: Flow)
        ensures
            old(self).spec_phase() != Phase::Receiving ==> {
                &&& *final(self) == *old(self)
                &&& r matches Flow::Return(res) && res.0 == Ok::<ActorState, TheaterError>(
                    ActorState::Stopped,
                )
            },
            old(self).spec_phase() == Phase::Receiving ==> old(self).settled(final(self), res, r),
    {
        if self.phase != Phase::Receiving {
            return Flow::Return(TheaterResult(Ok(ActorState::Stopped)));
        }
        let stop_early = self.stop_early;
        let ghost o = outcome_of(res);
        let ghost h0 = self.handler.spec_hooks();
        self.outcomes = Ghost(self.outcomes@.push(o));
        let context = self.handler.label();
        let (recovered, record) = TheaterResult(res).with_context(context.as_str());
        match recovered {
            Recover::Value(state) => {
                if state == ActorState::Stopped {
                    self.handler.set_status(ActorState::Terminating);
                    self.handler.on_stop();
                    self.phase = Phase::Finished;
                    assert(self.handler.spec_hooks() =~= h0 + settle_calls(o, stop_early));
                    Flow::Return(TheaterResult(Ok(ActorState::Terminating)))
                } else {
                    assert(self.handler.spec_hooks() =~= h0 + settle_calls(o, stop_early));
                    Flow::Receive
                }
            },
            Recover::State(state) => {
                let ghost before = self.log@;
                if let Some(rec) = record {
                    self.handler.on_error(&rec.error);
                    self.log.push(rec);
                }
                assert(self.log@.drop_last() =~= before);
                self.handler.set_status(state);
                if stop_early {
                    self.handler.set_status(ActorState::Stopped);
                    self.phase = Phase::Finished;
                    assert(self.handler.spec_hooks() =~= h0 + settle_calls(o, stop_early));
                    Flow::Return(TheaterResult(Ok(ActorState::Stopped)))
                } else {
                    assert(self.handler.spec_hooks() =~= h0 + settle_calls(o, stop_early));
                    Flow::Receive
                }
            },
        }
    }

    /// The channel closed: the run ends without `on_stop`, and the handler
    /// goes to `Stopped`. Outside a run nothing is called.
    pub fn close(&mut self) -> (r: TheaterResult<ActorState, TheaterError>)
        ensures
            r.0 == Ok::<ActorState, TheaterError>(ActorState::Stopped),
            old(self).spec_phase() != Phase::Receiving ==> *final(self) == *old(self),
            old(self).spec_phase() == Phase::Receiving ==> {
                &&& final(self).spec_handler().spec_hooks() == old(self).spec_handler().spec_hooks()
                    + close_calls()
                &&& final(self).spec_phase() == Phase::Finished
                &&& final(self).spec_start() == old(self).spec_start()
                &&& final(self).spec_outcomes() == old(self).spec_outcomes()
                &&& final(self).spec_policy() == old(self).spec_policy()
                &&& final(self).spec_log() == old(self).spec_log()
                &&& final(self).spec_stop_early() == old(self).spec_stop_early()
                &&& final(self).spec_handler().spec_status() == ActorState::Stopped
                &&& final(self).spec_handler().spec_id() == old(self).spec_handler().spec_id()
                &&& final(self).spec_handler().spec_label() == old(
                    self,
                ).spec_handler().spec_label()
            },
            old(self).consistent() ==> final(self).consistent(),
    {
        if self.phase == Phase::Receiving {
            let ghost before = *self;
            self.handler.set_status(ActorState::Stopped);
            self.phase = Phase::Finished;
            assert(self.handler.spec_hooks() =~= before.spec_handler().spec_hooks() + close_calls());
            proof {
                if before.consistent() {
                    assert(self.spec_calls() =~= before.spec_calls() + close_calls());
                }
            }
        }
        TheaterResult(Ok(ActorState::Stopped))
    }
}

} // verus!
