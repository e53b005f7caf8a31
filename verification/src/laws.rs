//! The protocol-level guarantees, stated and proved once for every machine.
//!
//! A run of drives is a trace: the wrapper states it passes through and what
//! each drive reported. Each lemma here quantifies over whole traces whose
//! steps obey the drive contracts of [`crate::stream`] and
//! [`crate::try_stream`], so the guarantees hold for any caller and any
//! interleaving, not just for the scripted machines of [`crate::script`].

use vstd::prelude::*;
use crate::context::PollContext;
use crate::machine::{GenState, Suspendable};
use crate::poll::Poll;
use crate::script::{ScriptStep, emitted_prefix, script_resume};
use crate::stream::{GenStreamFuture, poll_next_step, poll_step_core};
use crate::try_stream::{GenTryStreamFuture, try_poll_next_step, try_poll_step_core};

verus! {

/// The items a run of sequence-protocol drives handed out, in order.
pub open spec fn delivered_items<P>(outs: Seq<Poll<Option<P>>>) -> Seq<P>
    decreases outs.len(),
{
    if outs.len() == 0 {
        Seq::empty()
    } else {
        let rest = delivered_items(outs.drop_last());
        match outs.last() {
            Poll::Ready(Some(p)) => rest.push(p),
            _ => rest,
        }
    }
}

/// In any run of sequence-protocol drives, the items handed out are exactly
/// the items the machine emitted during the run, in emission order.
pub proof fn lemma_sequence_delivers_emissions<M: Suspendable>(
    states: Seq<GenStreamFuture<M>>,
    outs: Seq<Poll<Option<M::Item>>>,
)
    requires
        states.len() == outs.len() + 1,
        forall|i: int|
            0 <= i < outs.len() ==> #[trigger] poll_next_step(states[i], states[i + 1], outs[i]),
    ensures
        states.last().machine().emitted() == states[0].machine().emitted() + delivered_items(outs),
    decreases outs.len(),
{
    if outs.len() == 0 {
        assert(states[0].machine().emitted() + delivered_items(outs) =~= states[0].machine()
            .emitted());
    } else {
        lemma_sequence_delivers_emissions(states.drop_last(), outs.drop_last());
        let i = outs.len() - 1;
        let pre = states[i];
        let post = states[i + 1];
        assert(poll_next_step(states[i], states[i + 1], outs[i]));
        assert(post == states.last() && outs[i] == outs.last());
        match outs.last() {
            Poll::Ready(Some(p)) => {
                assert(states[0].machine().emitted() + delivered_items(outs) =~= (states[0]
                    .machine().emitted() + delivered_items(outs.drop_last())).push(p));
            },
            _ => {},
        }
    }
}

/// Dual delivery: driving the sequence protocol of a fresh wrapper to
/// exhaustion hands out exactly the emitted items in emission order, and a
/// subsequent completion-protocol drive hands out the machine's final value
/// -- exactly once, since no further drive of either protocol is possible.
pub proof fn lemma_dual_delivery<M: Suspendable>(
    states: Seq<GenStreamFuture<M>>,
    outs: Seq<Poll<Option<M::Item>>>,
    after: GenStreamFuture<M>,
    last_out: Poll<M::Return>,
)
    requires
        states.len() == outs.len() + 1,
        states[0].machine().emitted() == Seq::<M::Item>::empty(),
        forall|i: int|
            0 <= i < outs.len() ==> #[trigger] poll_next_step(states[i], states[i + 1], outs[i]),
        outs.len() > 0,
        outs.last() == Poll::Ready(None::<M::Item>),
        poll_step_core(states.last(), after, last_out),
    ensures
        delivered_items(outs) == states.last().machine().emitted(),
        last_out == Poll::Ready(states.last().machine().result()),
        after.cached() is None,
        forall|post: GenStreamFuture<M>, r: Poll<M::Return>| !#[trigger] poll_step_core(
            after,
            post,
            r,
        ),
        forall|post: GenStreamFuture<M>, r: Poll<Option<M::Item>>| !#[trigger] poll_next_step(
            after,
            post,
            r,
        ),
{
    lemma_sequence_delivers_emissions(states, outs);
    assert(Seq::<M::Item>::empty() + delivered_items(outs) =~= delivered_items(outs));
    let i = outs.len() - 1;
    assert(poll_next_step(states[i], states[i + 1], outs[i]));
    assert(states[i + 1] == states.last() && outs[i] == outs.last());
}

/// One drive of either protocol, with what it reported.
pub enum Drive<P, R> {
    /// A sequence-protocol drive.
    Next(Poll<Option<P>>),
    /// A completion-protocol drive.
    Done(Poll<R>),
}

/// Whether one drive of either protocol can take the wrapper from `pre` to
/// `post` reporting `o`.
pub open spec fn drive_step<M: Suspendable>(
    pre: GenStreamFuture<M>,
    post: GenStreamFuture<M>,
    o: Drive<M::Item, M::Return>,
) -> bool {
    match o {
        Drive::Next(r) => poll_next_step(pre, post, r),
        Drive::Done(r) => poll_step_core(pre, post, r),
    }
}

/// The items the sequence protocol handed out in a mixed run of drives.
pub open spec fn delivered_by_next<P, R>(obs: Seq<Drive<P, R>>) -> Seq<P>
    decreases obs.len(),
{
    if obs.len() == 0 {
        Seq::empty()
    } else {
        let rest = delivered_by_next(obs.drop_last());
        match obs.last() {
            Drive::Next(Poll::Ready(Some(p))) => rest.push(p),
            _ => rest,
        }
    }
}

/// `a` embeds into `b` in order: `b` contains the elements of `a`, each used
/// once, in the same order.
pub open spec fn subsequence_of<T>(a: Seq<T>, b: Seq<T>) -> bool
    decreases a.len() + b.len(),
{
    if a.len() == 0 {
        true
    } else if b.len() == 0 {
        false
    } else if a.last() == b.last() {
        subsequence_of(a.drop_last(), b.drop_last()) || subsequence_of(a, b.drop_last())
    } else {
        subsequence_of(a, b.drop_last())
    }
}

proof fn lemma_subsequence_push_both<T>(a: Seq<T>, b: Seq<T>, x: T)
    requires
        subsequence_of(a, b),
    ensures
        subsequence_of(a.push(x), b.push(x)),
{
    assert(a.push(x).drop_last() =~= a);
    assert(b.push(x).drop_last() =~= b);
}

proof fn lemma_subsequence_push_right<T>(a: Seq<T>, b: Seq<T>, x: T)
    requires
        subsequence_of(a, b),
    ensures
        subsequence_of(a, b.push(x)),
{
    assert(b.push(x).drop_last() =~= b);
}

/// Interleaving invariance: in any interleaving of completion-protocol and
/// sequence-protocol drives of a fresh wrapper, the items the sequence
/// protocol hands out embed, in order and without duplication, into what the
/// machine emitted; the completion protocol hands out no item; and a
/// completion-protocol drive that hands out the final value is necessarily
/// the last possible drive, so the final value is handed out at most once.
pub proof fn lemma_interleaving_invariance<M: Suspendable>(
    states: Seq<GenStreamFuture<M>>,
    obs: Seq<Drive<M::Item, M::Return>>,
)
    requires
        states.len() == obs.len() + 1,
        states[0].machine().emitted() == Seq::<M::Item>::empty(),
        forall|i: int|
            0 <= i < obs.len() ==> #[trigger] drive_step(states[i], states[i + 1], obs[i]),
    ensures
        subsequence_of(delivered_by_next(obs), states.last().machine().emitted()),
        forall|i: int, v: M::Return|
            0 <= i < obs.len() && obs[i] == Drive::<M::Item, M::Return>::Done(Poll::Ready(v)) ==> i == obs.len() - 1,
    decreases obs.len(),
{
    if obs.len() == 0 {
    } else {
        lemma_interleaving_invariance(states.drop_last(), obs.drop_last());
        let j = obs.len() - 1;
        let pre = states[j];
        let post = states[j + 1];
        let prefix_delivered = delivered_by_next(obs.drop_last());
        assert(drive_step(states[j], states[j + 1], obs[j]));
        assert(post == states.last() && obs[j] == obs.last());
        match obs.last() {
            Drive::Next(r) => {
                match r {
                    Poll::Ready(Some(p)) => {
                        lemma_subsequence_push_both(
                            prefix_delivered,
                            pre.machine().emitted(),
                            p,
                        );
                    },
                    _ => {},
                }
            },
            Drive::Done(r) => {
                if post.machine().emitted() != pre.machine().emitted() {
                    let p = choose|p: M::Item|
                        post.machine().emitted() == pre.machine().emitted().push(p);
                    lemma_subsequence_push_right(prefix_delivered, pre.machine().emitted(), p);
                }
            },
        }
        assert forall|i: int, v: M::Return|
            0 <= i < obs.len() && obs[i] == Drive::<M::Item, M::Return>::Done(Poll::Ready(v)) implies i == obs.len()
            - 1 by {
            if i < obs.len() - 1 {
                assert(obs.drop_last()[i] == obs[i]);
                assert(i == obs.len() - 2);
                let mid = states[i + 1];
                assert(drive_step(states[i], mid, obs[i]));
                assert(mid.machine().finished() && mid.cached() is None);
                assert(drive_step(mid, states[i + 2], obs[i + 1]));
                assert(false);
            }
        }
    }
}

/// Idempotent end of sequence: once the sequence protocol has reported end
/// of sequence, the next completion-protocol drive deterministically hands
/// out the cached final value, and after that no drive of either protocol is
/// possible -- the final value is delivered exactly once.
pub proof fn lemma_idempotent_end_of_sequence<M: Suspendable>(
    s0: GenStreamFuture<M>,
    s1: GenStreamFuture<M>,
    s2: GenStreamFuture<M>,
    r: Poll<M::Return>,
)
    requires
        poll_next_step(s0, s1, Poll::Ready(None::<M::Item>)),
        poll_step_core(s1, s2, r),
    ensures
        r == Poll::Ready(s1.machine().result()),
        s2.cached() is None,
        forall|s3: GenStreamFuture<M>, r2: Poll<M::Return>| !#[trigger] poll_step_core(s2, s3, r2),
        forall|s3: GenStreamFuture<M>, r2: Poll<Option<M::Item>>| !#[trigger] poll_next_step(
            s2,
            s3,
            r2,
        ),
{
}

/// The items a run of fallible sequence-protocol drives handed out.
pub open spec fn delivered_try_items<P, E>(outs: Seq<Poll<Option<Result<P, E>>>>) -> Seq<
    Result<P, E>,
>
    decreases outs.len(),
{
    if outs.len() == 0 {
        Seq::empty()
    } else {
        let rest = delivered_try_items(outs.drop_last());
        match outs.last() {
            Poll::Ready(Some(x)) => rest.push(x),
            _ => rest,
        }
    }
}

/// Every item of a sequence, wrapped in success.
pub open spec fn ok_items<P, E>(items: Seq<P>) -> Seq<Result<P, E>> {
    items.map_values(|p: P| Ok::<P, E>(p))
}

/// In any run of fallible sequence-protocol drives of a fresh wrapper that
/// has not yet finished the machine, the items handed out are exactly the
/// emitted items, each wrapped in success, in emission order.
pub proof fn lemma_try_sequence_delivers_emissions<O, E, M: Suspendable<Return = Result<O, E>>>(
    states: Seq<GenTryStreamFuture<O, E, M>>,
    outs: Seq<Poll<Option<Result<M::Item, E>>>>,
)
    requires
        states.len() == outs.len() + 1,
        states[0].machine().emitted() == Seq::<M::Item>::empty(),
        forall|i: int|
            0 <= i < outs.len() ==> #[trigger] try_poll_next_step(
                states[i],
                states[i + 1],
                outs[i],
            ),
        !states.last().machine().finished(),
    ensures
        delivered_try_items(outs) == ok_items::<M::Item, E>(states.last().machine().emitted()),
    decreases outs.len(),
{
    if outs.len() == 0 {
        assert(delivered_try_items(outs) =~= ok_items::<M::Item, E>(
            states.last().machine().emitted(),
        ));
    } else {
        let i = outs.len() - 1;
        let pre = states[i];
        let post = states[i + 1];
        assert(try_poll_next_step(states[i], states[i + 1], outs[i]));
        assert(post == states.last() && outs[i] == outs.last());
        lemma_try_sequence_delivers_emissions(states.drop_last(), outs.drop_last());
        match outs.last() {
            Poll::Ready(Some(Ok(p))) => {
                assert(ok_items::<M::Item, E>(post.machine().emitted()) =~= ok_items::<
                    M::Item,
                    E,
                >(pre.machine().emitted()).push(Ok(p)));
            },
            _ => {},
        }
    }
}

/// Fallible short-circuit, failing run: when a fresh fallible wrapper's
/// sequence protocol ends with a failure item, the whole sequence output is
/// every emitted item wrapped in success, in order, followed by exactly that
/// failure; the machine finished with that failure; and no drive of either
/// protocol is possible afterwards, so the failure never reaches the
/// completion protocol.
pub proof fn lemma_fallible_short_circuit<O, E, M: Suspendable<Return = Result<O, E>>>(
    states: Seq<GenTryStreamFuture<O, E, M>>,
    outs: Seq<Poll<Option<Result<M::Item, E>>>>,
    e: E,
)
    requires
        states.len() == outs.len() + 1,
        states[0].machine().emitted() == Seq::<M::Item>::empty(),
        forall|i: int|
            0 <= i < outs.len() ==> #[trigger] try_poll_next_step(
                states[i],
                states[i + 1],
                outs[i],
            ),
        outs.len() > 0,
        outs.last() == Poll::Ready(Some(Err::<M::Item, E>(e))),
    ensures
        delivered_try_items(outs) == ok_items::<M::Item, E>(states.last().machine().emitted()).push(
            Err(e),
        ),
        states.last().machine().result() == Err::<O, E>(e),
        states.last().machine().finished(),
        forall|post: GenTryStreamFuture<O, E, M>, r: Poll<Result<O, E>>|
            !#[trigger] try_poll_step_core(states.last(), post, r),
        forall|post: GenTryStreamFuture<O, E, M>, r: Poll<Option<Result<M::Item, E>>>|
            !#[trigger] try_poll_next_step(states.last(), post, r),
{
    let i = outs.len() - 1;
    assert(try_poll_next_step(states[i], states[i + 1], outs[i]));
    assert(states[i + 1] == states.last() && outs[i] == outs.last());
    lemma_try_sequence_delivers_emissions(states.drop_last(), outs.drop_last());
}

/// Fallible success: when a fresh fallible wrapper's sequence protocol ends
/// with end of sequence, the whole sequence output is every emitted item
/// wrapped in success, in order, with no failure among them; and the next
/// completion-protocol drive deterministically hands out the machine's
/// successful final value, exactly once.
pub proof fn lemma_fallible_success<O, E, M: Suspendable<Return = Result<O, E>>>(
    states: Seq<GenTryStreamFuture<O, E, M>>,
    outs: Seq<Poll<Option<Result<M::Item, E>>>>,
    after: GenTryStreamFuture<O, E, M>,
    last_out: Poll<Result<O, E>>,
)
    requires
        states.len() == outs.len() + 1,
        states[0].machine().emitted() == Seq::<M::Item>::empty(),
        forall|i: int|
            0 <= i < outs.len() ==> #[trigger] try_poll_next_step(
                states[i],
                states[i + 1],
                outs[i],
            ),
        outs.len() > 0,
        outs.last() == Poll::Ready(None::<Result<M::Item, E>>),
        try_poll_step_core(states.last(), after, last_out),
    ensures
        delivered_try_items(outs) == ok_items::<M::Item, E>(states.last().machine().emitted()),
        last_out == Poll::Ready(states.last().machine().result()),
        states.last().machine().result() is Ok,
        after.cached() is None,
        forall|post: GenTryStreamFuture<O, E, M>, r: Poll<Result<O, E>>|
            !#[trigger] try_poll_step_core(after, post, r),
        forall|post: GenTryStreamFuture<O, E, M>, r: Poll<Option<Result<M::Item, E>>>|
            !#[trigger] try_poll_next_step(after, post, r),
{
    let i = outs.len() - 1;
    assert(try_poll_next_step(states[i], states[i + 1], outs[i]));
    assert(states[i + 1] == states.last() && outs[i] == outs.last());
    lemma_try_sequence_delivers_emissions(states.drop_last(), outs.drop_last());
}

/// Dependency-wait transparency: a machine suspended at a dependency-wait
/// reports pending, wholly unchanged, on every resume while the dependency
/// is unresolved; once the dependency is resolved, a resume continues
/// exactly past the wait, which by itself emits nothing -- no item is
/// skipped or duplicated.
pub proof fn lemma_dependency_wait_transparency<P, R>(
    steps: Seq<ScriptStep<P>>,
    pos: int,
    outcome: R,
    blocked: PollContext,
    ready: PollContext,
    d: u64,
)
    requires
        0 <= pos < steps.len(),
        steps[pos] == ScriptStep::<P>::AwaitDep(d),
        d >= blocked.resolved,
        d < ready.resolved,
    ensures
        script_resume(steps, pos, outcome, blocked) == (pos, GenState::<P, R>::Pending),
        script_resume(steps, pos, outcome, ready) == script_resume(steps, pos + 1, outcome, ready),
        emitted_prefix(steps, pos + 1) == emitted_prefix(steps, pos),
{
}

} // verus!
