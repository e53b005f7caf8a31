//! The fallible runtime wrapper: a failure becomes the last sequence item.

use core::marker::PhantomData;
use vstd::prelude::*;
use crate::context::{PollContext, ResumeTy};
use crate::machine::{GenState, Suspendable};
use crate::poll::Poll;

verus! {

/// One suspendable state machine whose final value is fallible, exposed
/// under the completion protocol ([`Self::poll`]) and the sequence protocol
/// ([`Self::poll_next`]) at once.
///
/// The sequence protocol wraps every emitted item in `Ok`. When the machine
/// finishes with a failure, that failure is delivered as the *last* item of
/// the sequence instead of being cached: the completion protocol never
/// surfaces it. When the machine finishes with success, the success payload
/// is cached and the next completion drive rebuilds `Ok` around it, exactly
/// once.
#[verifier::reject_recursive_types(O)]
#[verifier::reject_recursive_types(E)]
pub struct GenTryStreamFuture<O, E, M: Suspendable<Return = Result<O, E>>> {
    gen: M,
    ret: Option<O>,
    residual: PhantomData<E>,
}

/// What the fallible sequence protocol may do in one drive. A pending drive
/// changes nothing observable; an `Ok` item is exactly the item the machine
/// emitted; an `Err` item is exactly the failure the machine finished with,
/// delivered here and never cached; end of sequence caches the success
/// payload the machine finished with.
pub open spec fn try_poll_next_step<O, E, M: Suspendable<Return = Result<O, E>>>(
    pre: GenTryStreamFuture<O, E, M>,
    post: GenTryStreamFuture<O, E, M>,
    r: Poll<Option<Result<M::Item, E>>>,
) -> bool {
    &&& pre.inv()
    &&& !pre.machine().finished()
    &&& post.inv()
    &&& match r {
        Poll::Pending => {
            &&& post.machine().emitted() == pre.machine().emitted()
            &&& !post.machine().finished()
            &&& post.cached() is None
        },
        Poll::Ready(Some(Ok(p))) => {
            &&& post.machine().emitted() == pre.machine().emitted().push(p)
            &&& !post.machine().finished()
            &&& post.cached() is None
        },
        Poll::Ready(Some(Err(e))) => {
            &&& post.machine().finished()
            &&& post.machine().result() == Err::<O, E>(e)
            &&& post.machine().emitted() == pre.machine().emitted()
            &&& post.cached() is None
        },
        Poll::Ready(None) => {
            &&& post.machine().finished()
            &&& post.machine().emitted() == pre.machine().emitted()
            &&& match post.cached() {
                Some(o) => post.machine().result() == Ok::<O, E>(o),
                None => false,
            }
        },
    }
}

/// What the fallible completion protocol may do in one drive, apart from its
/// effect on the context. With a cached success payload it hands out `Ok` of
/// that payload and clears the slot. Otherwise it resumes the machine: a
/// ready result is exactly the machine's fallible final value; a pending
/// result leaves the machine unfinished, having consumed at most one interim
/// item (never surfaced here).
pub open spec fn try_poll_step_core<O, E, M: Suspendable<Return = Result<O, E>>>(
    pre: GenTryStreamFuture<O, E, M>,
    post: GenTryStreamFuture<O, E, M>,
    r: Poll<Result<O, E>>,
) -> bool {
    &&& pre.inv()
    &&& pre.cached() is Some || !pre.machine().finished()
    &&& post.inv()
    &&& match pre.cached() {
        Some(o) => {
            &&& r == Poll::Ready(Ok::<O, E>(o))
            &&& post.machine() == pre.machine()
            &&& post.cached() is None
        },
        None => {
            &&& post.cached() is None
            &&& match r {
                Poll::Ready(v) => {
                    &&& post.machine().finished()
                    &&& v == post.machine().result()
                    &&& post.machine().emitted() == pre.machine().emitted()
                },
                Poll::Pending => {
                    &&& !post.machine().finished()
                    &&& (post.machine().emitted() == pre.machine().emitted() || (exists|p: M::Item|
                        post.machine().emitted() == pre.machine().emitted().push(p)))
                },
            }
        },
    }
}

impl<O, E, M: Suspendable<Return = Result<O, E>>> GenTryStreamFuture<O, E, M> {
    /// The machine this wrapper owns.
    pub closed spec fn machine(&self) -> M {
        self.gen
    }

    /// The scratch slot holding a cached success payload.
    pub closed spec fn cached(&self) -> Option<O> {
        self.ret
    }

    /// A payload is cached only once the machine has finished successfully,
    /// and it is exactly the success payload of the machine's final value.
    pub open spec fn inv(&self) -> bool {
        match self.cached() {
            Some(o) => self.machine().finished() && self.machine().result() == Ok::<O, E>(o),
            None => true,
        }
    }

    /// Take ownership of a state machine; no work happens until first driven.
    pub fn new(gen: M) -> (w: Self)
        ensures
            w.machine() == gen,
            w.cached() is None,
            w.inv(),
    {
        GenTryStreamFuture { gen, ret: None, residual: PhantomData }
    }

    /// Drive the completion protocol once.
    ///
    /// May be driven only while a final value is still owed: before the
    /// machine finishes, or while the slot still holds the cached success
    /// payload. As in the plain wrapper, consuming an interim item signal
    /// here re-arms the wake-up mechanism.
    pub fn poll(&mut self, cx: &mut PollContext) -> (r: Poll<Result<O, E>>)
        requires
            old(self).inv(),
            old(self).cached() is Some || !old(self).machine().finished(),
        ensures
            try_poll_step_core(*old(self), *final(self), r),
            final(cx).resolved == old(cx).resolved,
            final(cx).wake_requested == (old(cx).wake_requested || final(self).machine().emitted()
                != old(self).machine().emitted()),
            final(self).cached() is None,
            match old(self).cached() {
                Some(o) => {
                    &&& r == Poll::Ready(Ok::<O, E>(o))
                    &&& final(self).machine() == old(self).machine()
                    &&& *final(cx) == *old(cx)
                },
                None => ({
                    let (m2, sig) = old(self).machine().next(*old(cx));
                    let post = *final(self);
                    &&& post.machine() == m2
                    &&& match sig {
                        GenState::Pending => r == Poll::<Result<O, E>>::Pending && *final(cx)
                            == *old(cx),
                        GenState::Yielded(_) => r == Poll::<Result<O, E>>::Pending && *final(cx)
                            == (PollContext { wake_requested: true, ..*old(cx) }),
                        GenState::Complete(x) => r == Poll::Ready(x) && *final(cx) == *old(cx),
                    }
                }),
            },
    {
        let cached = self.ret.take();
        match cached {
            Some(o) => Poll::Ready(Ok(o)),
            None => {
                let s = self.gen.resume(ResumeTy::new(cx));
                match s {
                    GenState::Pending => Poll::Pending,
                    GenState::Yielded(p) => {
                        proof {
                            assert(self.gen.emitted() == old(self).gen.emitted().push(p));
                            assert(self.gen.emitted().len() == old(self).gen.emitted().len() + 1);
                        }
                        cx.request_wake();
                        Poll::Pending
                    },
                    GenState::Complete(x) => Poll::Ready(x),
                }
            },
        }
    }

    /// Drive the sequence protocol once.
    ///
    /// May be driven only while the machine is unfinished. Once an `Err`
    /// item or end of sequence has been reported the machine has finished:
    /// after an `Err` nothing further is owed, after end of sequence only
    /// the completion protocol is owed the cached success.
    pub fn poll_next(&mut self, cx: &PollContext) -> (r: Poll<Option<Result<M::Item, E>>>)
        requires
            old(self).inv(),
            !old(self).machine().finished(),
        ensures
            try_poll_next_step(*old(self), *final(self), r),
            ({
                let (m2, sig) = old(self).machine().next(*cx);
                let post = *final(self);
                &&& post.machine() == m2
                &&& match sig {
                    GenState::Pending => r == Poll::<Option<Result<M::Item, E>>>::Pending,
                    GenState::Yielded(p) => r == Poll::Ready(Some(Ok::<M::Item, E>(p))),
                    GenState::Complete(x) => match x {
                        Ok(o) => r == Poll::Ready(None::<Result<M::Item, E>>) && post.cached()
                            == Some(o),
                        Err(e) => r == Poll::Ready(Some(Err::<M::Item, E>(e))) && post.cached()
                            is None,
                    },
                }
            }),
    {
        let s = self.gen.resume(ResumeTy::new(cx));
        match s {
            GenState::Pending => Poll::Pending,
            GenState::Yielded(p) => Poll::Ready(Some(Ok(p))),
            GenState::Complete(x) => match x {
                Ok(o) => {
                    self.ret = Some(o);
                    Poll::Ready(None)
                },
                Err(e) => Poll::Ready(Some(Err(e))),
            },
        }
    }
}

} // verus!
