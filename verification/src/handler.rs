//! The handler and its builder.
use crate::callback::{runs_on_every_panic, share, stands_for, PanicHandleFn, SharedFn};
use crate::defaults::{
    default_body, default_body_text, default_hook, default_title, default_title_text,
};
use crate::hook::PanicHook;
use crate::info::PanicInfo;
use crate::report::PanicReport;
use std::sync::Arc;
use vstd::prelude::*;

verus! {

/// `title` formats as the default title formatter does: it runs on every
/// panic, and returns the default title.
pub open spec fn is_default_title(title: SharedFn<String>) -> bool {
    &&& runs_on_every_panic(title)
    &&& forall|info: &PanicInfo, text: String| #[trigger]
        title.yields(info, text) ==> text@ == default_title_text()
}

/// `body` formats as the default body formatter does: it runs on every panic,
/// and returns the default body of that panic.
pub open spec fn is_default_body(body: SharedFn<String>) -> bool {
    &&& runs_on_every_panic(body)
    &&& forall|info: &PanicInfo, text: String| #[trigger]
        body.yields(info, text) ==> text@ == default_body_text(info@)
}

/// `hook` is a callback that runs on every panic. The default hook is one, and
/// does nothing.
pub open spec fn is_default_hook<P>(hook: PanicHook<P>) -> bool {
    hook matches PanicHook::Call(callback) && runs_on_every_panic(callback)
}

/// Collects the callbacks that the application sets itself. Each setter
/// replaces what an earlier call put in the same place, and leaves the other
/// two places as they were. `P` is the type of the earlier interceptor that
/// the hook may be.
pub struct PanicHandlerBuilder<P = ()> {
    title: Option<SharedFn<String>>,
    body: Option<SharedFn<String>>,
    hook: Option<PanicHook<P>>,
}

/// Three callbacks to run on a panic: none is ever missing, and each runs on
/// every panic. Once built, a handler does not change; a clone shares its
/// callbacks. `P` is the type of the earlier interceptor that the hook may
/// be.
pub struct PanicHandler<P = ()> {
    title: SharedFn<String>,
    body: SharedFn<String>,
    hook: PanicHook<P>,
}

impl<P> PanicHandlerBuilder<P> {
    /// Every callback that is set runs on every panic.
    #[verifier::type_invariant]
    spec fn well_formed(&self) -> bool {
        &&& self.title matches Some(title) ==> runs_on_every_panic(title)
        &&& self.body matches Some(body) ==> runs_on_every_panic(body)
        &&& self.hook matches Some(hook) ==> hook.runs_on_every_panic()
    }

    /// The title formatter that was set, if any.
    pub closed spec fn title(&self) -> Option<SharedFn<String>> {
        self.title
    }

    /// The body formatter that was set, if any.
    pub closed spec fn body(&self) -> Option<SharedFn<String>> {
        self.body
    }

    /// The hook that was set, if any.
    pub closed spec fn hook(&self) -> Option<PanicHook<P>> {
        self.hook
    }

    /// Nothing is set.
    pub open spec fn is_new(&self) -> bool {
        &&& self.title() is None
        &&& self.body() is None
        &&& self.hook() is None
    }

    /// The title formatter is set, to `title_func`.
    pub open spec fn has_title<F: Fn(&PanicInfo) -> String>(&self, title_func: F) -> bool {
        self.title() matches Some(title) && stands_for(title, title_func)
    }

    /// The body formatter is set, to `body_func`.
    pub open spec fn has_body<F: Fn(&PanicInfo) -> String>(&self, body_func: F) -> bool {
        self.body() matches Some(body) && stands_for(body, body_func)
    }

    /// The hook is set, to the callback `call_func`.
    pub open spec fn has_call<F: Fn(&PanicInfo)>(&self, call_func: F) -> bool {
        self.hook() matches Some(PanicHook::Call(callback)) && stands_for(callback, call_func)
    }

    /// The hook is set, to the earlier interceptor `existing`.
    pub open spec fn has_existing(&self, existing: P) -> bool {
        self.hook() matches Some(PanicHook::Existing(interceptor)) && *interceptor == existing
    }

    /// `handler` is what this builder builds: each callback that was set, as
    /// it was set, and a default in the place of each that was not.
    pub open spec fn builds(&self, handler: PanicHandler<P>) -> bool {
        &&& match self.title() {
            Some(title) => *handler.title() == title,
            None => is_default_title(*handler.title()),
        }
        &&& match self.body() {
            Some(body) => *handler.body() == body,
            None => is_default_body(*handler.body()),
        }
        &&& match self.hook() {
            Some(hook) => *handler.hook() == hook,
            None => is_default_hook(*handler.hook()),
        }
    }

    /// Builds the handler. This cannot fail.
    #[must_use]
    pub fn build(self) -> (handler: PanicHandler<P>)
        ensures
            self.builds(handler),
    {
        proof {
            use_type_invariant(&self);
        }
        let title = match self.title {
            Some(title) => title,
            None => share(default_title),
        };
        let body = match self.body {
            Some(body) => body,
            None => share(default_body),
        };
        let hook = match self.hook {
            Some(hook) => hook,
            None => PanicHook::Call(share(default_hook)),
        };
        PanicHandler { title, body, hook }
    }

    /// Makes `existing`, the interceptor that the host took out of the
    /// process, the hook: once a panic has been reported, the handler hands it
    /// back to be run. The host has to take it before anything else is
    /// installed over it.
    #[must_use]
    pub fn take_call_from_existing<Q>(self, existing: Q) -> (builder: PanicHandlerBuilder<Q>)
        ensures
            builder.title() == self.title(),
            builder.body() == self.body(),
            builder.has_existing(existing),
    {
        proof {
            use_type_invariant(&self);
        }
        PanicHandlerBuilder {
            title: self.title,
            body: self.body,
            hook: Some(PanicHook::Existing(Arc::new(existing))),
        }
    }

    /// Sets the hook: `call_func` runs once the panic has been reported. It has
    /// to be a callback that runs on every panic.
    #[must_use]
    pub fn set_call_func<F: Fn(&PanicInfo) + Send + Sync + 'static>(self, call_func: F) -> (builder:
        Self)
        requires
            forall|info: &PanicInfo| call_requires(call_func, (info,)),
        ensures
            builder.title() == self.title(),
            builder.body() == self.body(),
            builder.has_call(call_func),
    {
        proof {
            use_type_invariant(&self);
        }
        PanicHandlerBuilder {
            title: self.title,
            body: self.body,
            hook: Some(PanicHook::Call(share(call_func))),
        }
    }

    /// Sets the title formatter. It has to be a callback that runs on every
    /// panic.
    #[must_use]
    pub fn set_title_func<F: Fn(&PanicInfo) -> String + Send + Sync + 'static>(
        self,
        title_func: F,
    ) -> (builder: Self)
        requires
            forall|info: &PanicInfo| call_requires(title_func, (info,)),
        ensures
            builder.has_title(title_func),
            builder.body() == self.body(),
            builder.hook() == self.hook(),
    {
        proof {
            use_type_invariant(&self);
        }
        PanicHandlerBuilder { title: Some(share(title_func)), body: self.body, hook: self.hook }
    }

    /// Sets the body formatter. It has to be a callback that runs on every
    /// panic.
    #[must_use]
    pub fn set_body_func<F: Fn(&PanicInfo) -> String + Send + Sync + 'static>(
        self,
        body_func: F,
    ) -> (builder: Self)
        requires
            forall|info: &PanicInfo| call_requires(body_func, (info,)),
        ensures
            builder.title() == self.title(),
            builder.has_body(body_func),
            builder.hook() == self.hook(),
    {
        proof {
            use_type_invariant(&self);
        }
        PanicHandlerBuilder { title: self.title, body: Some(share(body_func)), hook: self.hook }
    }
}

impl<P> Default for PanicHandlerBuilder<P> {
    /// A builder in which nothing is set.
    fn default() -> (builder: Self)
        ensures
            builder.is_new(),
    {
        PanicHandlerBuilder { title: None, body: None, hook: None }
    }
}

impl<P> PanicHandler<P> {
    /// Each of the three callbacks runs on every panic.
    #[verifier::type_invariant]
    spec fn well_formed(&self) -> bool {
        &&& runs_on_every_panic(self.title)
        &&& runs_on_every_panic(self.body)
        &&& self.hook.runs_on_every_panic()
    }

    /// What `title` returns, for contracts.
    pub closed spec fn spec_title(&self) -> &SharedFn<String> {
        &self.title
    }

    /// What `body` returns, for contracts.
    pub closed spec fn spec_body(&self) -> &SharedFn<String> {
        &self.body
    }

    /// What `hook` returns, for contracts.
    pub closed spec fn spec_hook(&self) -> &PanicHook<P> {
        &self.hook
    }

    /// A builder in which nothing is set.
    #[must_use]
    pub fn new() -> (builder: PanicHandlerBuilder<P>)
        ensures
            builder.is_new(),
    {
        PanicHandlerBuilder::default()
    }

    /// A builder whose hook is `existing`, the interceptor that the host took
    /// out of the process, and in which nothing else is set.
    #[must_use]
    pub fn new_take_old(existing: P) -> (builder: PanicHandlerBuilder<P>)
        ensures
            builder.title() is None,
            builder.body() is None,
            builder.has_existing(existing),
    {
        PanicHandlerBuilder::<P>::default().take_call_from_existing(existing)
    }

    /// The title formatter.
    #[verifier::when_used_as_spec(spec_title)]
    pub fn title(&self) -> (title: &SharedFn<String>)
        ensures
            title == self.spec_title(),
            runs_on_every_panic(*title),
    {
        proof {
            use_type_invariant(self);
        }
        &self.title
    }

    /// The body formatter.
    #[verifier::when_used_as_spec(spec_body)]
    pub fn body(&self) -> (body: &SharedFn<String>)
        ensures
            body == self.spec_body(),
            runs_on_every_panic(*body),
    {
        proof {
            use_type_invariant(self);
        }
        &self.body
    }

    /// The hook.
    #[verifier::when_used_as_spec(spec_hook)]
    pub fn hook(&self) -> (hook: &PanicHook<P>)
        ensures
            hook == self.spec_hook(),
            hook.runs_on_every_panic(),
    {
        proof {
            use_type_invariant(self);
        }
        &self.hook
    }

    /// Formats the report of a panic: the title, then the body. Nothing is
    /// logged or shown, and the hook is not run.
    pub fn report(&self, info: &PanicInfo) -> (report: PanicReport)
        ensures
            self.title().yields(info, report.title),
            self.body().yields(info, report.body),
    {
        proof {
            use_type_invariant(self);
        }
        let title = self.title.handle(info);
        let body = self.body.handle(info);
        PanicReport::from_outcomes(Some(title), Some(body))
    }

    /// Runs the hook, as the last step on a panic. Where the hook is an
    /// earlier interceptor, it is returned for the host to run.
    pub fn finish(&self, info: &PanicInfo) -> (existing: Option<&P>)
        ensures
            match existing {
                Some(interceptor) => self.hook().existing() == Some(*interceptor),
                None => self.hook().existing() is None,
            },
            *self.hook() matches PanicHook::Call(callback) ==> callback.yields(info, ()),
    {
        proof {
            use_type_invariant(self);
        }
        self.hook.run(info)
    }
}

impl<P> Default for PanicHandler<P> {
    /// The handler with every callback at its default.
    fn default() -> (handler: Self)
        ensures
            is_default_title(*handler.title()),
            is_default_body(*handler.body()),
            is_default_hook(*handler.hook()),
    {
        PanicHandler::new().build()
    }
}

impl<P> Clone for PanicHandler<P> {
    /// The clone shares its callbacks with `self`.
    fn clone(&self) -> (handler: Self)
        ensures
            handler == *self,
    {
        proof {
            use_type_invariant(self);
        }
        PanicHandler {
            title: self.title.clone(),
            body: self.body.clone(),
            hook: self.hook.clone(),
        }
    }
}

} // verus!
