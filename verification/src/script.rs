//! An executable form of lowered procedure bodies.
//!
//! A lowered body is, at runtime, a straight line of suspension points with
//! ordinary synchronous work between them. [`ScriptMachine`] records that
//! line as a sequence of [`ScriptStep`]s plus the final value, and interprets
//! it one resume at a time, exactly as the lowering prescribes: a
//! dependency-wait polls its nested operation with the carried token and
//! suspends pending while the operation is not ready; an emit suspends with
//! its item; the end of the line completes with the final value.

use vstd::prelude::*;
use crate::context::{DepOp, PollContext, ResumeTy};
use crate::machine::{GenState, Suspendable, resume_post};
use crate::poll::Poll;

verus! {

/// One suspension point of a lowered body.
#[derive(Clone, Copy, Debug, PartialEq, Eq)]
pub enum ScriptStep<P> {
    /// Emit: suspend with this item, then continue in place.
    Emit(P),
    /// Dependency-wait on the nested operation with this identifier:
    /// suspend pending until the external driver has resolved it.
    AwaitDep(u64),
}

/// A suspendable state machine that runs a recorded line of suspension
/// points. `pos` counts the steps already passed; `done` is set once the
/// final value has been reported, after which the machine must not be
/// resumed again.
pub struct ScriptMachine<P, R> {
    /// The suspension points, in order.
    pub steps: Vec<ScriptStep<P>>,
    /// How many suspension points have been passed.
    pub pos: usize,
    /// The final value reported on completion.
    pub outcome: R,
    /// Whether completion has been reported.
    pub done: bool,
}

/// The items among the first `n` steps, in order.
pub open spec fn emitted_prefix<P>(steps: Seq<ScriptStep<P>>, n: int) -> Seq<P>
    decreases n,
{
    if n <= 0 {
        Seq::empty()
    } else {
        let rest = emitted_prefix(steps, n - 1);
        match steps[n - 1] {
            ScriptStep::Emit(p) => rest.push(p),
            ScriptStep::AwaitDep(_) => rest,
        }
    }
}

/// What one resume of a script machine does from position `pos` under a
/// given context: pass every ready dependency-wait in place, then suspend at
/// the first emit or unready dependency-wait, or complete at the end of the
/// line. The result is the new position and the suspension signal; an
/// unready dependency-wait leaves the position exactly where it was.
pub open spec fn script_resume<P, R>(
    steps: Seq<ScriptStep<P>>,
    pos: int,
    outcome: R,
    ctx: PollContext,
) -> (int, GenState<P, R>)
    decreases steps.len() - pos,
{
    if pos >= steps.len() {
        (pos, GenState::Complete(outcome))
    } else {
        match steps[pos] {
            ScriptStep::Emit(p) => (pos + 1, GenState::Yielded(p)),
            ScriptStep::AwaitDep(d) => if d < ctx.resolved {
                script_resume(steps, pos + 1, outcome, ctx)
            } else {
                (pos, GenState::Pending)
            },
        }
    }
}

/// A resume that follows [`script_resume`] obeys the suspension protocol: it
/// emits exactly what it hands out and completes with its recorded final
/// value.
pub proof fn lemma_script_resume_obeys_protocol<P, R>(
    steps: Seq<ScriptStep<P>>,
    pos: int,
    outcome: R,
    ctx: PollContext,
)
    requires
        0 <= pos,
    ensures
        ({
            let (new_pos, sig) = script_resume(steps, pos, outcome, ctx);
            resume_post(
                emitted_prefix(steps, pos),
                emitted_prefix(steps, new_pos),
                sig is Complete,
                outcome,
                sig,
            )
        }),
    decreases steps.len() - pos,
{
    if pos >= steps.len() {
    } else {
        match steps[pos] {
            ScriptStep::Emit(p) => {
                assert(emitted_prefix(steps, pos + 1) == emitted_prefix(steps, pos).push(p));
            },
            ScriptStep::AwaitDep(d) => {
                if d < ctx.resolved {
                    assert(emitted_prefix(steps, pos + 1) == emitted_prefix(steps, pos));
                    lemma_script_resume_obeys_protocol(steps, pos + 1, outcome, ctx);
                }
            },
        }
    }
}

impl<P: Copy, R: Copy> ScriptMachine<P, R> {
    /// A fresh machine for the given line and final value.
    pub fn new(steps: Vec<ScriptStep<P>>, outcome: R) -> (m: Self)
        ensures
            m == (ScriptMachine { steps, pos: 0, outcome, done: false }),
    {
        ScriptMachine { steps, pos: 0, outcome, done: false }
    }

    /// Run until the next suspension point or the end of the line; exactly
    /// [`script_resume`] under the carried context.
    pub fn step(&mut self, token: ResumeTy<'_>) -> (s: GenState<P, R>)
        ensures
            ({
                let (new_pos, sig) = script_resume(
                    old(self).steps@,
                    old(self).pos as int,
                    old(self).outcome,
                    token.context(),
                );
                &&& s == sig
                &&& final(self).steps == old(self).steps
                &&& final(self).outcome == old(self).outcome
                &&& final(self).pos as int == new_pos
                &&& final(self).done == (old(self).done || sig is Complete)
            }),
    {
        loop
            invariant
                script_resume(self.steps@, self.pos as int, self.outcome, token.context())
                    == script_resume(
                    old(self).steps@,
                    old(self).pos as int,
                    old(self).outcome,
                    token.context(),
                ),
                self.steps == old(self).steps,
                self.outcome == old(self).outcome,
                self.done == old(self).done,
            decreases self.steps@.len() - self.pos,
        {
            if self.pos >= self.steps.len() {
                self.done = true;
                return GenState::Complete(self.outcome);
            }
            let step = self.steps[self.pos];
            match step {
                ScriptStep::Emit(p) => {
                    self.pos = self.pos + 1;
                    return GenState::Yielded(p);
                },
                ScriptStep::AwaitDep(d) => {
                    let mut op = DepOp { id: d };
                    match token.poll_future(&mut op) {
                        Poll::Ready(_) => {
                            self.pos = self.pos + 1;
                        },
                        Poll::Pending => {
                            return GenState::Pending;
                        },
                    }
                },
            }
        }
    }
}

impl<P: Copy, R: Copy> Suspendable for ScriptMachine<P, R> {
    type Item = P;

    type Return = R;

    open spec fn emitted(&self) -> Seq<P> {
        emitted_prefix(self.steps@, self.pos as int)
    }

    open spec fn finished(&self) -> bool {
        self.done
    }

    open spec fn result(&self) -> R {
        self.outcome
    }

    open spec fn next(&self, ctx: PollContext) -> (Self, GenState<P, R>) {
        let (new_pos, sig) = script_resume(self.steps@, self.pos as int, self.outcome, ctx);
        (
            ScriptMachine {
                pos: new_pos as usize,
                done: self.done || sig is Complete,
                ..*self
            },
            sig,
        )
    }

    fn resume(&mut self, token: ResumeTy<'_>) -> (s: GenState<P, R>) {
        proof {
            lemma_script_resume_obeys_protocol(
                self.steps@,
                self.pos as int,
                self.outcome,
                token.context(),
            );
        }
        self.step(token)
    }
}

} // verus!
