//! The capability that a caller attaches: something that is told of a crash
//! and says whether it dealt with it.

use vstd::prelude::*;
use crate::context::CrashContext;

verus! {

/// Something that can be told of a crash and decides whether it has fully
/// dealt with it.
///
/// `on_crash` runs on the crashing thread, inside a signal handler. An
/// implementation must not allocate from the general allocator, take a lock
/// that is not reentrant, or block.
pub trait CrashEvent: Send + Sync {
    /// Whether `handled` is an answer that this event can give for `context`.
    /// An event that does not say otherwise can give either answer.
    open spec fn may_answer(&self, context: &CrashContext, handled: bool) -> bool {
        true
    }

    /// Called when a crash occurs. Answering `true` says that the crash has
    /// been dealt with and that no further handler should run.
    fn on_crash(&self, context: &CrashContext) -> (handled: bool)
        ensures
            self.may_answer(context, handled),
    ;
}

/// A closure in the place of a [`CrashEvent`].
pub struct ClosureEvent<F> where F: Send + Sync + Fn(&CrashContext) -> bool {
    inner: F,
}

impl<F> ClosureEvent<F> where F: Send + Sync + Fn(&CrashContext) -> bool {
    #[verifier::type_invariant]
    spec fn accepts_every_context(&self) -> bool {
        accepts_every_context(self.inner)
    }

    /// The closure that this event calls.
    pub closed spec fn closure(&self) -> F {
        self.inner
    }
}

impl<F> CrashEvent for ClosureEvent<F> where F: Send + Sync + Fn(&CrashContext) -> bool {
    open spec fn may_answer(&self, context: &CrashContext, handled: bool) -> bool {
        call_ensures(self.closure(), (context,), handled)
    }

    fn on_crash(&self, context: &CrashContext) -> (handled: bool) {
        proof {
            use_type_invariant(self);
        }
        (self.inner)(context)
    }
}

/// Whether `closure` can be called on every crash context.
pub open spec fn accepts_every_context<F: Fn(&CrashContext) -> bool>(closure: F) -> bool {
    forall|context: &CrashContext| call_requires(closure, (context,))
}

/// Wraps `closure` so that it can be attached: the event answers as the
/// closure does.
///
/// The closure runs inside a signal handler and is bound by what
/// [`CrashEvent`] asks of `on_crash`: to call this function is to accept that.
pub fn make_crash_event<F: 'static + Send + Sync + Fn(&CrashContext) -> bool>(closure: F) -> (event:
    ClosureEvent<F>)
    requires
        accepts_every_context(closure),
    ensures
        event.closure() == closure,
{
    ClosureEvent { inner: closure }
}

} // verus!
