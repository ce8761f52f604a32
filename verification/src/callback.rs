//! The callbacks of a handler, and how they are held.
use crate::info::PanicInfo;
use std::sync::Arc;
use vstd::prelude::*;

verus! {

/// A callback that a handler runs on a panic. Every closure and function that
/// takes a `&PanicInfo`, returns `Res` and can be shared between threads is
/// one.
pub trait PanicHandleFn<Res>: Send + Sync + 'static {
    /// Whether the callback may be run on `info`.
    spec fn accepts(&self, info: &PanicInfo) -> bool;

    /// Whether `res` is something the callback may return for `info`.
    spec fn yields(&self, info: &PanicInfo, res: Res) -> bool;

    /// Runs the callback.
    fn handle(&self, info: &PanicInfo) -> (res: Res)
        requires
            self.accepts(info),
        ensures
            self.yields(info, res),
    ;
}

impl<Res, T: Fn(&PanicInfo) -> Res + Send + Sync + 'static> PanicHandleFn<Res> for T {
    open spec fn accepts(&self, info: &PanicInfo) -> bool {
        call_requires(*self, (info,))
    }

    open spec fn yields(&self, info: &PanicInfo, res: Res) -> bool {
        call_ensures(*self, (info,), res)
    }

    fn handle(&self, info: &PanicInfo) -> (res: Res) {
        self(info)
    }
}

/// A callback behind a shared pointer: a clone is the same callback.
pub type SharedFn<Res> = Arc<Box<dyn PanicHandleFn<Res>>>;

/// `callback` runs on every panic.
pub open spec fn runs_on_every_panic<Res>(callback: SharedFn<Res>) -> bool {
    forall|info: &PanicInfo| #[trigger] callback.accepts(info)
}

/// `shared` is `f` behind a pointer: it may be run where `f` may, and returns
/// what `f` may return.
pub open spec fn stands_for<Res, F: Fn(&PanicInfo) -> Res>(shared: SharedFn<Res>, f: F) -> bool {
    &&& forall|info: &PanicInfo| #[trigger] shared.accepts(info) <==> call_requires(f, (info,))
    &&& forall|info: &PanicInfo, res: Res| #[trigger]
        shared.yields(info, res) <==> call_ensures(f, (info,), res)
}

/// Puts `f` behind a shared pointer.
pub fn share<Res, F: Fn(&PanicInfo) -> Res + Send + Sync + 'static>(f: F) -> (shared: SharedFn<Res>)
    ensures
        stands_for(shared, f),
{
    let boxed: Box<dyn PanicHandleFn<Res>> = Box::new(f);
    Arc::new(boxed)
}

} // verus!
