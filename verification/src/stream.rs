//! The plain runtime wrapper: one state machine under both protocols.

use vstd::prelude::*;
use crate::context::{PollContext, ResumeTy};
use crate::machine::{GenState, Suspendable};
use crate::poll::Poll;

verus! {

/// One suspendable state machine exposed under the completion protocol
/// ([`Self::poll`]) and the sequence protocol ([`Self::poll_next`]) at once.
///
/// The wrapper owns the machine and a scratch slot for the final value. When
/// the sequence protocol exhausts the machine, the final value is cached in
/// the slot; the next completion drive consumes it, exactly once.
pub struct GenStreamFuture<M: Suspendable> {
    gen: M,
    ret: Option<M::Return>,
}

/// What the sequence protocol may do in one drive. A pending drive changes
/// nothing observable; an item-bearing drive hands out exactly the item the
/// machine emitted; an end-of-sequence drive reports the machine finished and
/// caches its final value.
pub open spec fn poll_next_step<M: Suspendable>(
    pre: GenStreamFuture<M>,
    post: GenStreamFuture<M>,
    r: Poll<Option<M::Item>>,
) -> bool {
    &&& pre.inv()
    &&& !pre.machine().finished()
    &&& post.inv()
    &&& match r {
        Poll::Pending => {
            &&& post.machine().emitted() == pre.machine().emitted()
            &&& !post.machine().finished()
            &&& post.cached() is None
        },
        Poll::Ready(Some(p)) => {
            &&& post.machine().emitted() == pre.machine().emitted().push(p)
            &&& !post.machine().finished()
            &&& post.cached() is None
        },
        Poll::Ready(None) => {
            &&& post.machine().finished()
            &&& post.machine().emitted() == pre.machine().emitted()
            &&& post.cached() == Some(post.machine().result())
        },
    }
}

/// What the completion protocol may do in one drive, apart from its effect
/// on the context. With a cached final value it hands that value out and
/// clears the slot, touching nothing else. Otherwise it resumes the machine:
/// a ready result is exactly the machine's final value; a pending result
/// leaves the machine unfinished, having consumed at most one interim item
/// (which this protocol never surfaces).
pub open spec fn poll_step_core<M: Suspendable>(
    pre: GenStreamFuture<M>,
    post: GenStreamFuture<M>,
    r: Poll<M::Return>,
) -> bool {
    &&& pre.inv()
    &&& pre.cached() is Some || !pre.machine().finished()
    &&& post.inv()
    &&& match pre.cached() {
        Some(v) => {
            &&& r == Poll::Ready(v)
            &&& post.machine() == pre.machine()
            &&& post.cached() is None
        },
        None => {
            &&& post.cached() is None
            &&& match r {
                Poll::Ready(v) => {
                    &&& post.machine().finished()
                    &&& v == post.machine().result()
                    &&& post.machine().emitted() == pre.machine().emitted()
                },
                Poll::Pending => {
                    &&& !post.machine().finished()
                    &&& (post.machine().emitted() == pre.machine().emitted() || (exists|p: M::Item|
                        post.machine().emitted() == pre.machine().emitted().push(p)))
                },
            }
        },
    }
}

impl<M: Suspendable> GenStreamFuture<M> {
    /// The machine this wrapper owns.
    pub closed spec fn machine(&self) -> M {
        self.gen
    }

    /// The scratch slot holding a final value the sequence protocol cached.
    pub closed spec fn cached(&self) -> Option<M::Return> {
        self.ret
    }

    /// A value is cached only once the machine has finished, and it is
    /// exactly the machine's final value.
    pub open spec fn inv(&self) -> bool {
        self.cached() is Some ==> self.machine().finished() && self.cached() == Some(
            self.machine().result(),
        )
    }

    /// Take ownership of a state machine; no work happens until first driven.
    pub fn new(gen: M) -> (w: Self)
        ensures
            w.machine() == gen,
            w.cached() is None,
            w.inv(),
    {
        GenStreamFuture { gen, ret: None }
    }

    /// Drive the completion protocol once.
    ///
    /// May be driven only while a final value is still owed: before the
    /// machine finishes, or while the slot still holds the cached value.
    /// When an interim item signal is consumed here, the wake-up mechanism is
    /// re-armed: nothing else would wake a caller that only ever drives this
    /// protocol while the machine is busy producing items.
    pub fn poll(&mut self, cx: &mut PollContext) -> (r: Poll<M::Return>)
        requires
            old(self).inv(),
            old(self).cached() is Some || !old(self).machine().finished(),
        ensures
            poll_step_core(*old(self), *final(self), r),
            final(cx).resolved == old(cx).resolved,
            final(cx).wake_requested == (old(cx).wake_requested || final(self).machine().emitted()
                != old(self).machine().emitted()),
            final(self).cached() is None,
            match old(self).cached() {
                Some(v) => {
                    &&& r == Poll::Ready(v)
                    &&& final(self).machine() == old(self).machine()
                    &&& *final(cx) == *old(cx)
                },
                None => ({
                    let (m2, sig) = old(self).machine().next(*old(cx));
                    &&& final(self).machine() == m2
                    &&& match sig {
                        GenState::Pending => r == Poll::<M::Return>::Pending && *final(cx) == *old(
                            cx,
                        ),
                        GenState::Yielded(_) => r == Poll::<M::Return>::Pending && *final(cx) == (
                        PollContext { wake_requested: true, ..*old(cx) }),
                        GenState::Complete(x) => r == Poll::Ready(x) && *final(cx) == *old(cx),
                    }
                }),
            },
    {
        let cached = self.ret.take();
        match cached {
            Some(x) => Poll::Ready(x),
            None => {
                let s = self.gen.resume(ResumeTy::new(cx));
                match s {
                    GenState::Pending => Poll::Pending,
                    GenState::Yielded(p) => {
                        proof {
                            assert(self.gen.emitted() == old(self).gen.emitted().push(p));
                            assert(self.gen.emitted().len() == old(self).gen.emitted().len() + 1);
                        }
                        cx.request_wake();
                        Poll::Pending
                    },
                    GenState::Complete(x) => Poll::Ready(x),
                }
            },
        }
    }

    /// Drive the sequence protocol once.
    ///
    /// May be driven only while the machine is unfinished; once end of
    /// sequence has been reported, only the completion protocol is owed
    /// anything (the cached final value).
    pub fn poll_next(&mut self, cx: &PollContext) -> (r: Poll<Option<M::Item>>)
        requires
            old(self).inv(),
            !old(self).machine().finished(),
        ensures
            poll_next_step(*old(self), *final(self), r),
            ({
                let (m2, sig) = old(self).machine().next(*cx);
                let post = *final(self);
                &&& post.machine() == m2
                &&& match sig {
                    GenState::Pending => r == Poll::<Option<M::Item>>::Pending,
                    GenState::Yielded(p) => r == Poll::Ready(Some(p)),
                    GenState::Complete(x) => r == Poll::Ready(None::<M::Item>) && post.cached()
                        == Some(x),
                }
            }),
    {
        let s = self.gen.resume(ResumeTy::new(cx));
        match s {
            GenState::Pending => Poll::Pending,
            GenState::Yielded(p) => Poll::Ready(Some(p)),
            GenState::Complete(x) => {
                self.ret = Some(x);
                Poll::Ready(None)
            },
        }
    }
}

} // verus!
