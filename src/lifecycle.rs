use vstd::prelude::*;

use crate::types::{ActorState, TheaterError};

verus! {

/// What the handler's `handle` returned for one message.
pub ghost enum Outcome {
    Handled(ActorState),
    Failed(TheaterError),
}

/// One call the runtime makes into its handler.
pub ghost enum Call {
    /// `set_status` with this state.
    Status(ActorState),
    /// The `on_start` hook.
    Start,
    /// The `on_tick` hook.
    Tick,
    /// `handle` on the next message.
    Handle,
    /// The `on_error` hook with this error; the runtime logs one record
    /// for it.
    Fail(TheaterError),
    /// The `on_stop` hook.
    Stop,
}

/// Whether the run ends after a message with this outcome: on the explicit
/// stop signal, or on a failure under the early-stop policy.
pub open spec fn ends_run(o: Outcome, stop_early: bool) -> bool {
    match o {
        Outcome::Handled(s) => s == ActorState::Stopped,
        Outcome::Failed(_) => stop_early,
    }
}

/// Whether the run ended on the explicit stop signal of this outcome.
pub open spec fn is_stop_signal(o: Outcome) -> bool {
    o == Outcome::Handled(ActorState::Stopped)
}

/// Calls made when a run begins.
pub open spec fn start_calls() -> Seq<Call> {
    seq![Call::Status(ActorState::Starting), Call::Start, Call::Status(ActorState::Started)]
}

/// Calls made once `handle` returned with outcome `o`.
pub open spec fn settle_calls(o: Outcome, stop_early: bool) -> Seq<Call> {
    match o {
        Outcome::Handled(s) => if s == ActorState::Stopped {
            seq![Call::Status(ActorState::Terminating), Call::Stop]
        } else {
            seq![]
        },
        Outcome::Failed(e) => if stop_early {
            seq![
                Call::Fail(e),
                Call::Status(ActorState::Running),
                Call::Status(ActorState::Stopped),
            ]
        } else {
            seq![Call::Fail(e), Call::Status(ActorState::Running)]
        },
    }
}

/// Calls made for one delivered message whose `handle` had outcome `o`:
/// `on_tick`, `handle`, then what its outcome calls for.
pub open spec fn step_calls(o: Outcome, stop_early: bool) -> Seq<Call> {
    seq![Call::Tick, Call::Handle] + settle_calls(o, stop_early)
}

/// Calls made for the delivered messages, in delivery order.
pub open spec fn steps_calls(os: Seq<Outcome>, stop_early: bool) -> Seq<Call>
    decreases os.len(),
{
    if os.len() == 0 {
        seq![]
    } else {
        steps_calls(os.drop_last(), stop_early) + step_calls(os.last(), stop_early)
    }
}

/// Calls made when the channel closes.
pub open spec fn close_calls() -> Seq<Call> {
    seq![Call::Status(ActorState::Stopped)]
}

/// Whether no outcome but the last ends a run: the outcomes of the messages
/// one run can dispatch.
pub open spec fn is_run(os: Seq<Outcome>, stop_early: bool) -> bool {
    forall|i: int| 0 <= i < os.len() - 1 ==> !ends_run(#[trigger] os[i], stop_early)
}

/// Whether the last delivered message ended the run.
pub open spec fn ended(os: Seq<Outcome>, stop_early: bool) -> bool {
    os.len() > 0 && ends_run(os.last(), stop_early)
}

/// The messages a run dispatches when the channel holds messages whose
/// outcomes are `os` and then closes: all of them, up to and including the
/// first one that ends the run.
pub open spec fn delivered(os: Seq<Outcome>, stop_early: bool) -> Seq<Outcome>
    decreases os.len(),
{
    if os.len() == 0 {
        seq![]
    } else if ends_run(os[0], stop_early) {
        seq![os[0]]
    } else {
        seq![os[0]] + delivered(os.drop_first(), stop_early)
    }
}

/// All calls of a run that dispatched messages with outcomes `ds`: it
/// returns after the message that ends it, else when the channel closes.
pub open spec fn run_calls(ds: Seq<Outcome>, stop_early: bool) -> Seq<Call> {
    if ended(ds, stop_early) {
        start_calls() + steps_calls(ds, stop_early)
    } else {
        start_calls() + steps_calls(ds, stop_early) + close_calls()
    }
}

/// Whether a call is one of the lifecycle hooks or a dispatch.
pub open spec fn is_hook(c: Call) -> bool {
    c is Start || c is Tick || c is Handle || c is Stop
}

/// The lifecycle hooks and dispatches among `cs`, in order.
pub open spec fn hooks(cs: Seq<Call>) -> Seq<Call>
    decreases cs.len(),
{
    if cs.len() == 0 {
        seq![]
    } else if is_hook(cs.last()) {
        hooks(cs.drop_last()).push(cs.last())
    } else {
        hooks(cs.drop_last())
    }
}

/// `n` pairs of `on_tick` and dispatch.
pub open spec fn dispatches(n: nat) -> Seq<Call>
    decreases n,
{
    if n == 0 {
        seq![]
    } else {
        dispatches((n - 1) as nat) + seq![Call::Tick, Call::Handle]
    }
}

/// How many times `c` occurs in `cs`.
pub open spec fn occurrences(cs: Seq<Call>, c: Call) -> nat
    decreases cs.len(),
{
    if cs.len() == 0 {
        0
    } else {
        occurrences(cs.drop_last(), c) + if cs.last() == c {
            1nat
        } else {
            0
        }
    }
}

/// How many failures `cs` records.
pub open spec fn failures(cs: Seq<Call>) -> nat
    decreases cs.len(),
{
    if cs.len() == 0 {
        0
    } else {
        failures(cs.drop_last()) + if cs.last() is Fail {
            1nat
        } else {
            0
        }
    }
}

/// How many of the outcomes `os` are failures.
pub open spec fn failed(os: Seq<Outcome>) -> nat
    decreases os.len(),
{
    if os.len() == 0 {
        0
    } else {
        failed(os.drop_last()) + if os.last() is Failed {
            1nat
        } else {
            0
        }
    }
}

/// The state of the last `set_status` call among `cs`.
pub open spec fn last_status(cs: Seq<Call>) -> Option<ActorState>
    decreases cs.len(),
{
    if cs.len() == 0 {
        None
    } else {
        match cs.last() {
            Call::Status(s) => Some(s),
            _ => last_status(cs.drop_last()),
        }
    }
}

} // verus!
