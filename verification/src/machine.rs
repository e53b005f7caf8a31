//! The suspension protocol obeyed by a lowered procedure body.

use vstd::prelude::*;
use crate::context::{PollContext, ResumeTy};

verus! {

/// What one resume of a suspendable state machine reports.
#[derive(Clone, Copy, Debug, PartialEq, Eq)]
pub enum GenState<P, R> {
    /// Suspended, no item: a dependency-wait is still blocked.
    Pending,
    /// Suspended with one interim item for the sequence protocol.
    Yielded(P),
    /// Finished with the final value. The machine must never be resumed
    /// again after reporting this.
    Complete(R),
}

/// What a resume is allowed to do to the machine's observable state.
///
/// A pending resume adds nothing; a yielding resume appends exactly the item
/// it hands out; a completing resume reports the machine finished and hands
/// out its final value. No resume un-finishes a machine or rewrites history.
pub open spec fn resume_post<P, R>(
    pre_emitted: Seq<P>,
    post_emitted: Seq<P>,
    post_finished: bool,
    post_result: R,
    s: GenState<P, R>,
) -> bool {
    match s {
        GenState::Pending => post_emitted == pre_emitted && !post_finished,
        GenState::Yielded(p) => post_emitted == pre_emitted.push(p) && !post_finished,
        GenState::Complete(r) => post_emitted == pre_emitted && post_finished && r == post_result,
    }
}

/// A suspendable state machine: the lowered form of a procedure body.
///
/// Its execution state is opaque; externally it is only ever resumed, with a
/// token carrying the driver's context, and answers with a [`GenState`].
/// Resuming a finished machine is a caller error, ruled out by `resume`'s
/// precondition.
pub trait Suspendable: Sized {
    /// The interim items the body emits.
    type Item;

    /// The final value the body returns.
    type Return;

    /// The items handed out so far, in emission order.
    spec fn emitted(&self) -> Seq<Self::Item>;

    /// Whether the machine has reported its final value.
    spec fn finished(&self) -> bool;

    /// The final value (determined once `finished()`).
    spec fn result(&self) -> Self::Return;

    /// The machine's behavior: the successor state and the reported signal
    /// of one resume from this state under the given context. Between
    /// suspension points a body is ordinary synchronous code, so what one
    /// resume does is a function of the state and the context alone.
    spec fn next(&self, ctx: PollContext) -> (Self, GenState<Self::Item, Self::Return>);

    /// Run until the next suspension point or until the body returns:
    /// exactly what [`Self::next`] says under the carried context, and in
    /// any case obeying the suspension protocol.
    fn resume(&mut self, token: ResumeTy<'_>) -> (s: GenState<Self::Item, Self::Return>)
        requires
            !old(self).finished(),
        ensures
            (*final(self), s) == old(self).next(token.context()),
            resume_post(
                old(self).emitted(),
                final(self).emitted(),
                final(self).finished(),
                final(self).result(),
                s,
            ),
    ;
}

} // verus!
