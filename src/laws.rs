use vstd::prelude::*;

use crate::actor::{ActorImpl, Handler, Phase};
use crate::lifecycle::{
    is_run, close_calls, delivered, dispatches, ended, ends_run, failed, failures, hooks, is_hook,
    is_stop_signal, last_status, occurrences, run_calls, start_calls, step_calls, steps_calls,
    Call, Outcome,
};
use crate::types::ActorState;

verus! {

broadcast proof fn lemma_hooks_push(cs: Seq<Call>, c: Call)
    ensures
        #[trigger] hooks(cs.push(c)) == if is_hook(c) {
            hooks(cs).push(c)
        } else {
            hooks(cs)
        },
{
    assert(cs.push(c).drop_last() =~= cs);
}

broadcast proof fn lemma_occurrences_push(cs: Seq<Call>, c: Call, x: Call)
    ensures
        #[trigger] occurrences(cs.push(c), x) == occurrences(cs, x) + if c == x {
            1nat
        } else {
            0
        },
{
    assert(cs.push(c).drop_last() =~= cs);
}

broadcast proof fn lemma_failures_push(cs: Seq<Call>, c: Call)
    ensures
        #[trigger] failures(cs.push(c)) == failures(cs) + if c is Fail {
            1nat
        } else {
            0
        },
{
    assert(cs.push(c).drop_last() =~= cs);
}

proof fn lemma_hooks_append(a: Seq<Call>, b: Seq<Call>)
    ensures
        hooks(a + b) == hooks(a) + hooks(b),
    decreases b.len(),
{
    if b.len() == 0 {
        assert(a + b =~= a);
        assert(hooks(a) + hooks(b) =~= hooks(a));
    } else {
        let pre = b.drop_last();
        lemma_hooks_append(a, pre);
        assert(a + b =~= (a + pre).push(b.last()));
        assert(b =~= pre.push(b.last()));
        lemma_hooks_push(a + pre, b.last());
        lemma_hooks_push(pre, b.last());
        assert((hooks(a) + hooks(pre)).push(b.last()) =~= hooks(a) + hooks(pre).push(b.last()));
    }
}

proof fn lemma_occurrences_append(a: Seq<Call>, b: Seq<Call>, x: Call)
    ensures
        occurrences(a + b, x) == occurrences(a, x) + occurrences(b, x),
    decreases b.len(),
{
    if b.len() == 0 {
        assert(a + b =~= a);
    } else {
        let pre = b.drop_last();
        lemma_occurrences_append(a, pre, x);
        assert(a + b =~= (a + pre).push(b.last()));
        assert(b =~= pre.push(b.last()));
        lemma_occurrences_push(a + pre, b.last(), x);
        lemma_occurrences_push(pre, b.last(), x);
    }
}

proof fn lemma_failures_append(a: Seq<Call>, b: Seq<Call>)
    ensures
        failures(a + b) == failures(a) + failures(b),
    decreases b.len(),
{
    if b.len() == 0 {
        assert(a + b =~= a);
    } else {
        let pre = b.drop_last();
        lemma_failures_append(a, pre);
        assert(a + b =~= (a + pre).push(b.last()));
        assert(b =~= pre.push(b.last()));
        lemma_failures_push(a + pre, b.last());
        lemma_failures_push(pre, b.last());
    }
}

/// The messages a run dispatches are a prefix of the channel's, none but the
/// last ends the run, and a run that dispatched fewer than all of them ended.
proof fn lemma_delivered_shape(os: Seq<Outcome>, stop_early: bool)
    ensures
        delivered(os, stop_early).len() <= os.len(),
        delivered(os, stop_early) =~= os.take(delivered(os, stop_early).len() as int),
        forall|i: int|
            0 <= i < delivered(os, stop_early).len() - 1 ==> !ends_run(
                #[trigger] delivered(os, stop_early)[i],
                stop_early,
            ),
        delivered(os, stop_early).len() < os.len() ==> ended(delivered(os, stop_early), stop_early),
    decreases os.len(),
{
    if os.len() > 0 && !ends_run(os[0], stop_early) {
        let rest = os.drop_first();
        lemma_delivered_shape(rest, stop_early);
        let ds = delivered(os, stop_early);
        let dr = delivered(rest, stop_early);
        assert(ds == seq![os[0]] + dr);
        assert forall|i: int| 0 <= i < ds.len() - 1 implies !ends_run(#[trigger] ds[i], stop_early) by {
            if i > 0 {
                assert(ds[i] == dr[i - 1]);
            }
        }
        if dr.len() > 0 {
            assert(ds.last() == dr.last());
        }
    }
}

/// A run dispatches the messages up to and including the first one at `k`
/// that ends it, or all of them where none does.
proof fn lemma_delivered_upto(os: Seq<Outcome>, stop_early: bool, k: int)
    requires
        0 <= k <= os.len(),
        forall|j: int| 0 <= j < k ==> !ends_run(#[trigger] os[j], stop_early),
        k < os.len() ==> ends_run(os[k], stop_early),
    ensures
        delivered(os, stop_early) == os.take(if k < os.len() {
            k + 1
        } else {
            k
        }),
    decreases os.len(),
{
    if os.len() == 0 {
        assert(os.take(0) =~= os);
    } else if k == 0 {
        assert(os.take(1) =~= seq![os[0]]);
    } else {
        let rest = os.drop_first();
        assert forall|j: int| 0 <= j < k - 1 implies !ends_run(#[trigger] rest[j], stop_early) by {
            assert(rest[j] == os[j + 1]);
        }
        assert(!ends_run(os[0], stop_early));
        lemma_delivered_upto(rest, stop_early, k - 1);
        let n = if k < os.len() {
            k + 1
        } else {
            k
        };
        assert(seq![os[0]] + rest.take(n - 1) =~= os.take(n));
    }
}

proof fn lemma_step_hooks(o: Outcome, stop_early: bool)
    ensures
        hooks(step_calls(o, stop_early)) == seq![Call::Tick, Call::Handle] + if is_stop_signal(o) {
            seq![Call::Stop]
        } else {
            seq![]
        },
{
    let e = Seq::<Call>::empty();
    let th = e.push(Call::Tick).push(Call::Handle);
    lemma_hooks_push(e, Call::Tick);
    lemma_hooks_push(e.push(Call::Tick), Call::Handle);
    assert(hooks(th) =~= seq![Call::Tick, Call::Handle]);
    match o {
        Outcome::Handled(s) => {
            if s == ActorState::Stopped {
                let t = th.push(Call::Status(ActorState::Terminating));
                lemma_hooks_push(th, Call::Status(ActorState::Terminating));
                lemma_hooks_push(t, Call::Stop);
                assert(step_calls(o, stop_early) =~= t.push(Call::Stop));
                assert(hooks(t.push(Call::Stop)) =~= seq![Call::Tick, Call::Handle] + seq![
                    Call::Stop,
                ]);
            } else {
                assert(step_calls(o, stop_early) =~= th);
                assert(hooks(th) =~= seq![Call::Tick, Call::Handle] + e);
            }
        },
        Outcome::Failed(err) => {
            let f = th.push(Call::Fail(err));
            let r = f.push(Call::Status(ActorState::Running));
            lemma_hooks_push(th, Call::Fail(err));
            lemma_hooks_push(f, Call::Status(ActorState::Running));
            lemma_hooks_push(r, Call::Status(ActorState::Stopped));
            if stop_early {
                assert(step_calls(o, stop_early) =~= r.push(Call::Status(ActorState::Stopped)));
            } else {
                assert(step_calls(o, stop_early) =~= r);
            }
            assert(hooks(th) =~= seq![Call::Tick, Call::Handle] + e);
        },
    }
}

proof fn lemma_steps_hooks(ds: Seq<Outcome>, stop_early: bool)
    requires
        forall|i: int| 0 <= i < ds.len() - 1 ==> !is_stop_signal(#[trigger] ds[i]),
    ensures
        hooks(steps_calls(ds, stop_early)) == dispatches(ds.len()) + if ds.len() > 0
            && is_stop_signal(ds.last()) {
            seq![Call::Stop]
        } else {
            seq![]
        },
    decreases ds.len(),
{
    if ds.len() == 0 {
        assert(dispatches(0) + Seq::<Call>::empty() =~= Seq::<Call>::empty());
    } else {
        let pre = ds.drop_last();
        assert forall|i: int| 0 <= i < pre.len() - 1 implies !is_stop_signal(#[trigger] pre[i]) by {
            assert(pre[i] == ds[i]);
        }
        lemma_steps_hooks(pre, stop_early);
        if pre.len() > 0 {
            assert(pre.last() == ds[ds.len() - 2]);
        }
        assert(dispatches(pre.len()) + Seq::<Call>::empty() =~= dispatches(pre.len()));
        lemma_hooks_append(steps_calls(pre, stop_early), step_calls(ds.last(), stop_early));
        lemma_step_hooks(ds.last(), stop_early);
        assert(dispatches(ds.len()) == dispatches(pre.len()) + seq![Call::Tick, Call::Handle]);
        if is_stop_signal(ds.last()) {
            assert(dispatches(pre.len()) + (seq![Call::Tick, Call::Handle] + seq![Call::Stop])
                =~= dispatches(ds.len()) + seq![Call::Stop]);
        } else {
            assert(dispatches(pre.len()) + (seq![Call::Tick, Call::Handle] + Seq::<Call>::empty())
                =~= dispatches(ds.len()) + Seq::<Call>::empty());
        }
    }
}

/// The stop hook, the `Terminating` state and the failures that one
/// delivered message brings.
proof fn lemma_step_counts(o: Outcome, stop_early: bool)
    ensures
        occurrences(step_calls(o, stop_early), Call::Stop) == if is_stop_signal(o) {
            1nat
        } else {
            0
        },
        occurrences(step_calls(o, stop_early), Call::Status(ActorState::Terminating)) == if is_stop_signal(o) {
            1nat
        } else {
            0
        },
        failures(step_calls(o, stop_early)) == if o is Failed {
            1nat
        } else {
            0
        },
{
    broadcast use {lemma_occurrences_push, lemma_failures_push};

    let e = Seq::<Call>::empty();
    let th = e.push(Call::Tick).push(Call::Handle);
    match o {
        Outcome::Handled(s) => {
            if s == ActorState::Stopped {
                assert(step_calls(o, stop_early) =~= th.push(
                    Call::Status(ActorState::Terminating),
                ).push(Call::Stop));
            } else {
                assert(step_calls(o, stop_early) =~= th);
            }
        },
        Outcome::Failed(err) => {
            let r = th.push(Call::Fail(err)).push(Call::Status(ActorState::Running));
            if stop_early {
                assert(step_calls(o, stop_early) =~= r.push(Call::Status(ActorState::Stopped)));
            } else {
                assert(step_calls(o, stop_early) =~= r);
            }
        },
    }
}

/// Neither the start of a run nor the closing of its channel calls
/// `on_stop`, reaches `Terminating` or records a failure; only the start
/// calls `on_start`.
proof fn lemma_edge_counts()
    ensures
        hooks(start_calls()) == seq![Call::Start],
        hooks(close_calls()) == Seq::<Call>::empty(),
        occurrences(start_calls(), Call::Stop) == 0,
        occurrences(close_calls(), Call::Stop) == 0,
        occurrences(start_calls(), Call::Status(ActorState::Terminating)) == 0,
        occurrences(close_calls(), Call::Status(ActorState::Terminating)) == 0,
        failures(start_calls()) == 0,
        failures(close_calls()) == 0,
{
    broadcast use {lemma_hooks_push, lemma_occurrences_push, lemma_failures_push};

    let e = Seq::<Call>::empty();
    assert(start_calls() =~= e.push(Call::Status(ActorState::Starting)).push(Call::Start).push(
        Call::Status(ActorState::Started),
    ));
    assert(close_calls() =~= e.push(Call::Status(ActorState::Stopped)));
    assert(hooks(start_calls()) =~= seq![Call::Start]);
}

proof fn lemma_steps_counts(ds: Seq<Outcome>, stop_early: bool)
    requires
        forall|i: int| 0 <= i < ds.len() - 1 ==> !is_stop_signal(#[trigger] ds[i]),
    ensures
        occurrences(steps_calls(ds, stop_early), Call::Stop) == if ds.len() > 0 && is_stop_signal(
            ds.last(),
        ) {
            1nat
        } else {
            0
        },
        occurrences(steps_calls(ds, stop_early), Call::Status(ActorState::Terminating)) == if ds.len()
            > 0 && is_stop_signal(ds.last()) {
            1nat
        } else {
            0
        },
        failures(steps_calls(ds, stop_early)) == failed(ds),
    decreases ds.len(),
{
    if ds.len() > 0 {
        let pre = ds.drop_last();
        assert forall|i: int| 0 <= i < pre.len() - 1 implies !is_stop_signal(#[trigger] pre[i]) by {
            assert(pre[i] == ds[i]);
        }
        lemma_steps_counts(pre, stop_early);
        if pre.len() > 0 {
            assert(pre.last() == ds[ds.len() - 2]);
        }
        let a = steps_calls(pre, stop_early);
        let b = step_calls(ds.last(), stop_early);
        lemma_occurrences_append(a, b, Call::Stop);
        lemma_occurrences_append(a, b, Call::Status(ActorState::Terminating));
        lemma_failures_append(a, b);
        lemma_step_counts(ds.last(), stop_early);
    }
}

proof fn lemma_run_parts(ds: Seq<Outcome>, stop_early: bool)
    requires
        forall|i: int| 0 <= i < ds.len() - 1 ==> !is_stop_signal(#[trigger] ds[i]),
    ensures
        ({
            let cs = run_calls(ds, stop_early);
            let stopped = ds.len() > 0 && is_stop_signal(ds.last());
            &&& hooks(cs) == seq![Call::Start] + dispatches(ds.len()) + if stopped {
                seq![Call::Stop]
            } else {
                seq![]
            }
            &&& occurrences(cs, Call::Stop) == if stopped {
                1nat
            } else {
                0
            }
            &&& occurrences(cs, Call::Status(ActorState::Terminating)) == if stopped {
                1nat
            } else {
                0
            }
            &&& failures(cs) == failed(ds)
        }),
{
    let a = start_calls();
    let b = steps_calls(ds, stop_early);
    let c = close_calls();
    lemma_edge_counts();
    lemma_steps_hooks(ds, stop_early);
    lemma_steps_counts(ds, stop_early);
    lemma_hooks_append(a, b);
    lemma_occurrences_append(a, b, Call::Stop);
    lemma_occurrences_append(a, b, Call::Status(ActorState::Terminating));
    lemma_failures_append(a, b);
    lemma_hooks_append(a + b, c);
    lemma_occurrences_append(a + b, c, Call::Stop);
    lemma_occurrences_append(a + b, c, Call::Status(ActorState::Terminating));
    lemma_failures_append(a + b, c);
    assert(hooks(a + b + c) =~= hooks(a) + hooks(b));
}

/// Lifecycle order: a run calls `on_start`, then `on_tick` and `handle` for
/// each message it dispatches, in the order the channel delivered them, and
/// `on_stop` last, exactly when the explicit stop signal ended the run. The
/// messages it dispatches are the channel's first ones.
pub proof fn lemma_lifecycle_order(os: Seq<Outcome>, stop_early: bool)
    ensures
        ({
            let ds = delivered(os, stop_early);
            &&& ds == os.take(ds.len() as int)
            &&& hooks(run_calls(ds, stop_early)) == seq![Call::Start] + dispatches(ds.len()) + if ended(
                ds,
                stop_early,
            ) && is_stop_signal(ds.last()) {
                seq![Call::Stop]
            } else {
                seq![]
            }
        }),
{
    let ds = delivered(os, stop_early);
    lemma_delivered_shape(os, stop_early);
    assert forall|i: int| 0 <= i < ds.len() - 1 implies !is_stop_signal(#[trigger] ds[i]) by {
        assert(!ends_run(ds[i], stop_early));
    }
    lemma_run_parts(ds, stop_early);
}

/// Early-stop policy: where `handle` fails on the message at `k` alone and
/// no message carries the stop signal, a run under the early-stop policy
/// dispatches the first `k + 1` messages and never reaches `Terminating`,
/// and a run without it dispatches every message.
pub proof fn lemma_early_stop_policy(os: Seq<Outcome>, k: int)
    requires
        0 <= k < os.len(),
        os[k] is Failed,
        forall|j: int|
            0 <= j < os.len() && j != k ==> #[trigger] os[j] is Handled && !is_stop_signal(os[j]),
    ensures
        delivered(os, true) == os.take(k + 1),
        occurrences(run_calls(delivered(os, true), true), Call::Status(ActorState::Terminating))
            == 0,
        delivered(os, false) == os,
{
    lemma_delivered_upto(os, true, k);
    lemma_delivered_upto(os, false, os.len() as int);
    assert(os.take(os.len() as int) =~= os);
    let ds = os.take(k + 1);
    assert forall|i: int| 0 <= i < ds.len() - 1 implies !is_stop_signal(#[trigger] ds[i]) by {
        assert(ds[i] == os[i]);
    }
    lemma_run_parts(ds, true);
    assert(ds.last() == os[k]);
}

/// Explicit stop: where `handle` returns `Stopped` on the message at `k` and
/// no earlier message ends the run, the run dispatches no message after it,
/// and `on_stop` fires exactly once.
pub proof fn lemma_explicit_stop(os: Seq<Outcome>, stop_early: bool, k: int)
    requires
        0 <= k < os.len(),
        is_stop_signal(os[k]),
        forall|j: int| 0 <= j < k ==> !ends_run(#[trigger] os[j], stop_early),
    ensures
        delivered(os, stop_early) == os.take(k + 1),
        occurrences(run_calls(delivered(os, stop_early), stop_early), Call::Stop) == 1,
{
    lemma_delivered_upto(os, stop_early, k);
    let ds = os.take(k + 1);
    assert forall|i: int| 0 <= i < ds.len() - 1 implies !is_stop_signal(#[trigger] ds[i]) by {
        assert(ds[i] == os[i]);
        assert(!ends_run(os[i], stop_early));
    }
    lemma_run_parts(ds, stop_early);
    assert(ds.last() == os[k]);
}

/// Channel closure: where no message ends the run, the run dispatches all
/// of them and returns after the last, `on_stop` never fires, and the last
/// state the handler is set to is `Stopped`.
pub proof fn lemma_channel_closure(os: Seq<Outcome>, stop_early: bool)
    requires
        forall|j: int| 0 <= j < os.len() ==> !ends_run(#[trigger] os[j], stop_early),
    ensures
        delivered(os, stop_early) == os,
        hooks(run_calls(os, stop_early)) == seq![Call::Start] + dispatches(os.len()),
        occurrences(run_calls(os, stop_early), Call::Stop) == 0,
        last_status(run_calls(os, stop_early)) == Some(ActorState::Stopped),
{
    lemma_delivered_upto(os, stop_early, os.len() as int);
    assert(os.take(os.len() as int) =~= os);
    assert forall|i: int| 0 <= i < os.len() - 1 implies !is_stop_signal(#[trigger] os[i]) by {
        assert(!ends_run(os[i], stop_early));
    }
    if os.len() > 0 {
        assert(!ends_run(os.last(), stop_early));
    }
    lemma_run_parts(os, stop_early);
    assert(seq![Call::Start] + dispatches(os.len()) + Seq::<Call>::empty() =~= seq![Call::Start]
        + dispatches(os.len()));
    let cs = run_calls(os, stop_early);
    assert(cs.last() == Call::Status(ActorState::Stopped));
}

proof fn lemma_failed_all(os: Seq<Outcome>)
    requires
        forall|j: int| 0 <= j < os.len() ==> #[trigger] os[j] is Failed,
    ensures
        failed(os) == os.len(),
    decreases os.len(),
{
    if os.len() > 0 {
        let pre = os.drop_last();
        assert forall|j: int| 0 <= j < pre.len() implies #[trigger] pre[j] is Failed by {
            assert(pre[j] == os[j]);
        }
        lemma_failed_all(pre);
    }
}

/// Recovery: without the early-stop policy, a run whose first `n` messages
/// fail and whose next one succeeds dispatches all of them, records exactly
/// `n` failures, and handles the last message as any other: `on_tick` and
/// `handle`, nothing more, before the channel closes.
pub proof fn lemma_recovery(os: Seq<Outcome>, n: nat)
    requires
        os.len() == n + 1,
        forall|j: int| 0 <= j < n ==> #[trigger] os[j] is Failed,
        os[n as int] is Handled,
        !is_stop_signal(os[n as int]),
    ensures
        delivered(os, false) == os,
        failures(run_calls(os, false)) == n,
        run_calls(os, false) == start_calls() + steps_calls(os.take(n as int), false) + seq![
            Call::Tick,
            Call::Handle,
        ] + close_calls(),
{
    assert forall|j: int| 0 <= j < os.len() implies !ends_run(#[trigger] os[j], false) by {}
    lemma_delivered_upto(os, false, os.len() as int);
    assert(os.take(os.len() as int) =~= os);
    assert forall|i: int| 0 <= i < os.len() - 1 implies !is_stop_signal(#[trigger] os[i]) by {}
    lemma_run_parts(os, false);
    let pre = os.take(n as int);
    assert(os.drop_last() =~= pre);
    assert forall|j: int| 0 <= j < pre.len() implies #[trigger] pre[j] is Failed by {
        assert(pre[j] == os[j]);
    }
    lemma_failed_all(pre);
    assert(step_calls(os.last(), false) =~= seq![Call::Tick, Call::Handle]);
}

/// The outcomes of the messages one run dispatched are exactly what that
/// run dispatches from a channel holding those messages alone.
pub proof fn lemma_run_delivered(os: Seq<Outcome>, stop_early: bool)
    requires
        is_run(os, stop_early),
    ensures
        delivered(os, stop_early) == os,
{
    assert(os.take(os.len() as int) =~= os);
    if os.len() > 0 && ends_run(os.last(), stop_early) {
        lemma_delivered_upto(os, stop_early, os.len() - 1);
    } else {
        lemma_delivered_upto(os, stop_early, os.len() as int);
    }
}

/// An actor whose history agrees with the model, once its run is finished,
/// made the calls of the model's run over the messages it dispatched, and
/// its hooks came in lifecycle order: `on_start`, `on_tick` and `handle` for
/// each message, and `on_stop` last, exactly once, when the stop signal
/// ended the run, and never otherwise. `on_error` fired once per failed
/// message; under the early-stop policy no message followed a failure, and
/// `Terminating` was set only on the stop signal.
pub proof fn lemma_actor_run<H: Handler<M>, M>(a: ActorImpl<H, M>)
    requires
        a.consistent(),
        a.spec_phase() == Phase::Finished,
    ensures
        ({
            let os = a.spec_outcomes();
            let p = a.spec_policy();
            let cs = a.spec_calls();
            let stopped = ended(os, p) && is_stop_signal(os.last());
            &&& delivered(os, p) == os
            &&& cs == run_calls(delivered(os, p), p)
            &&& hooks(cs) == seq![Call::Start] + dispatches(os.len()) + if stopped {
                seq![Call::Stop]
            } else {
                seq![]
            }
            &&& occurrences(cs, Call::Stop) == if stopped {
                1nat
            } else {
                0
            }
            &&& occurrences(cs, Call::Status(ActorState::Terminating)) == if stopped {
                1nat
            } else {
                0
            }
            &&& failures(cs) == failed(os)
            &&& p ==> forall|i: int| 0 <= i < os.len() - 1 ==> !(#[trigger] os[i] is Failed)
        }),
{
    let os = a.spec_outcomes();
    let p = a.spec_policy();
    lemma_run_delivered(os, p);
    lemma_lifecycle_order(os, p);
    assert forall|i: int| 0 <= i < os.len() - 1 implies !is_stop_signal(#[trigger] os[i]) by {
        assert(!ends_run(os[i], p));
    }
    lemma_run_parts(os, p);
    if p {
        assert forall|i: int| 0 <= i < os.len() - 1 implies !(#[trigger] os[i] is Failed) by {
            assert(!ends_run(os[i], p));
        }
    }
}

} // verus!
