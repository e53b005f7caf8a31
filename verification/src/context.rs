//! The external polling context and the resumption token that carries it.

use vstd::prelude::*;
use crate::poll::Poll;

verus! {

/// The wake-up context an external driver supplies for one drive.
///
/// The driver owns one of these and passes it, borrowed, into every drive.
/// `resolved` is the driver's record of which nested dependencies have
/// completed: the dependency with identifier `d` is complete exactly when
/// `d < resolved`. `wake_requested` is the wake-up mechanism: a drive sets it
/// when it must be proactively re-driven even though no dependency will
/// notify it.
pub struct PollContext {
    /// Dependencies with an identifier below this bound have completed.
    pub resolved: u64,
    /// Whether a future wake has been explicitly requested.
    pub wake_requested: bool,
}

impl PollContext {
    /// A fresh context: no dependency resolved, no wake requested.
    pub fn new() -> (c: Self)
        ensures
            c.resolved == 0,
            !c.wake_requested,
    {
        PollContext { resolved: 0, wake_requested: false }
    }

    /// Re-arm the wake-up mechanism: ask the driver to drive again even
    /// though no nested dependency will notify it.
    pub fn request_wake(&mut self)
        ensures
            *final(self) == (PollContext { wake_requested: true, ..*old(self) }),
    {
        self.wake_requested = true;
    }
}

/// The resumption token: a non-owning carrier of the borrowed external
/// polling context, valid only for the single resume call it is passed into.
///
/// It exists so that a dependency-wait inside a lowered body can poll a
/// nested operation with the *same* context the external driver supplied,
/// without the body needing its own notion of a driver. The borrow ends with
/// the resume call; the token cannot be stored past it.
#[derive(Clone, Copy)]
pub struct ResumeTy<'a> {
    cx: &'a PollContext,
}

impl<'a> ResumeTy<'a> {
    /// The context this token carries.
    pub closed spec fn context(&self) -> PollContext {
        *self.cx
    }

    /// Wrap a borrowed context for one resume call.
    pub fn new(cx: &'a PollContext) -> (t: Self)
        ensures
            t.context() == *cx,
    {
        ResumeTy { cx }
    }

    /// The borrowed context itself.
    pub fn get_context(self) -> (c: &'a PollContext)
        ensures
            *c == self.context(),
    {
        self.cx
    }

    /// Poll a nested operation with the carried context: the dependency-wait
    /// primitive a lowered body uses.
    pub fn poll_future<F: Pollable>(self, f: &mut F) -> (r: Poll<F::Output>)
        ensures
            r == (if old(f).ready(self.context()) {
                Poll::Ready(old(f).value(self.context()))
            } else {
                Poll::<F::Output>::Pending
            }),
    {
        f.poll(self)
    }
}

/// A nested asynchronous operation: something a dependency-wait can block on.
///
/// Implementors decide, from the polling context alone, whether they are
/// complete and what value they complete with.
pub trait Pollable: Sized {
    /// The value the operation completes with.
    type Output;

    /// Whether the operation is complete under the given context.
    spec fn ready(&self, cx: PollContext) -> bool;

    /// The value it completes with under the given context.
    spec fn value(&self, cx: PollContext) -> Self::Output;

    /// Poll once with the context the token carries.
    fn poll(&mut self, token: ResumeTy<'_>) -> (r: Poll<Self::Output>)
        ensures
            r == (if old(self).ready(token.context()) {
                Poll::Ready(old(self).value(token.context()))
            } else {
                Poll::<Self::Output>::Pending
            }),
    ;
}

/// The simplest nested operation: complete once the external driver has
/// resolved the dependency with this identifier, completing with it.
#[derive(Clone, Copy, Debug, PartialEq, Eq)]
pub struct DepOp {
    /// The identifier the external driver resolves.
    pub id: u64,
}

impl Pollable for DepOp {
    type Output = u64;

    open spec fn ready(&self, cx: PollContext) -> bool {
        self.id < cx.resolved
    }

    open spec fn value(&self, cx: PollContext) -> u64 {
        self.id
    }

    fn poll(&mut self, token: ResumeTy<'_>) -> (r: Poll<u64>) {
        let c = token.get_context();
        if self.id < c.resolved {
            Poll::Ready(self.id)
        } else {
            Poll::Pending
        }
    }
}

} // verus!
