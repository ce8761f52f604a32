//! What a handler does once a panic has been reported.
use crate::callback::{PanicHandleFn, SharedFn};
use crate::info::PanicInfo;
use std::sync::Arc;
use vstd::prelude::*;

verus! {

/// The last step of a handler. `P` is the type of the interceptor that the
/// host had installed before: this crate keeps such a value and hands it back,
/// and never runs it, because only the host has the runtime's own description
/// of the panic to run it on.
pub enum PanicHook<P> {
    /// A callback of the application.
    Call(SharedFn<()>),
    /// The interceptor that was installed before the handler took its place.
    Existing(Arc<P>),
}

impl<P> PanicHook<P> {
    /// Whether the hook may be run on `info`. An earlier interceptor is not
    /// run here, so nothing is asked for it.
    pub open spec fn accepts(&self, info: &PanicInfo) -> bool {
        match *self {
            PanicHook::Call(callback) => callback.accepts(info),
            PanicHook::Existing(_) => true,
        }
    }

    /// Whether the hook may be run on every panic.
    pub open spec fn runs_on_every_panic(&self) -> bool {
        forall|info: &PanicInfo| #[trigger] self.accepts(info)
    }

    /// What `run` leaves for the host to call: the earlier interceptor, where
    /// the hook is one.
    pub open spec fn existing(&self) -> Option<P> {
        match *self {
            PanicHook::Call(_) => None,
            PanicHook::Existing(interceptor) => Some(*interceptor),
        }
    }

    /// Runs the hook as far as this crate can: a callback is run on `info`;
    /// an earlier interceptor is returned, for the host to run.
    pub fn run(&self, info: &PanicInfo) -> (existing: Option<&P>)
        requires
            self.accepts(info),
        ensures
            match existing {
                Some(interceptor) => self.existing() == Some(*interceptor),
                None => self.existing() is None,
            },
            self matches PanicHook::Call(callback) ==> callback.yields(info, ()),
    {
        match self {
            PanicHook::Call(callback) => {
                callback.handle(info);
                None
            },
            PanicHook::Existing(interceptor) => Some(&**interceptor),
        }
    }
}

impl<P> Clone for PanicHook<P> {
    /// The clone shares the callback or the interceptor with `self`.
    fn clone(&self) -> (hook: Self)
        ensures
            hook == *self,
    {
        match self {
            PanicHook::Call(callback) => PanicHook::Call(callback.clone()),
            PanicHook::Existing(interceptor) => PanicHook::Existing(interceptor.clone()),
        }
    }
}

} // verus!
