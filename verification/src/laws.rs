//! What holds of every handler that a builder builds.
use crate::callback::{stands_for, PanicHandleFn};
use crate::defaults::default_body_text;
use crate::handler::{PanicHandler, PanicHandlerBuilder};
use crate::hook::PanicHook;
use crate::info::PanicInfo;
use vstd::prelude::*;

verus! {

/// Where no title formatter was set, the handler's title formatter runs on
/// every panic and returns "Fatal Error", whatever the panic.
pub proof fn default_title_is_constant<P>(
    builder: PanicHandlerBuilder<P>,
    handler: PanicHandler<P>,
    info: &PanicInfo,
    title: String,
)
    requires
        builder.title() is None,
        builder.builds(handler),
        handler.title().yields(info, title),
    ensures
        handler.title().accepts(info),
        title@ == "Fatal Error"@,
{
}

/// Where no body formatter was set, the handler's body formatter runs on
/// every panic and returns the default body of that panic: a line that names
/// the location, or says that it is unknown, then the message, or that there
/// is none.
pub proof fn default_body_follows_the_panic<P>(
    builder: PanicHandlerBuilder<P>,
    handler: PanicHandler<P>,
    info: &PanicInfo,
    body: String,
)
    requires
        builder.body() is None,
        builder.builds(handler),
        handler.body().yields(info, body),
    ensures
        handler.body().accepts(info),
        body@ == default_body_text(info@),
{
}

/// Where no hook was set, the handler's hook runs on every panic and leaves
/// no earlier interceptor for the host to run.
pub proof fn default_hook_keeps_nothing<P>(
    builder: PanicHandlerBuilder<P>,
    handler: PanicHandler<P>,
    info: &PanicInfo,
)
    requires
        builder.hook() is None,
        builder.builds(handler),
    ensures
        handler.hook().accepts(info),
        handler.hook().existing() is None,
{
}

/// A title formatter that was set is the handler's title formatter: the
/// handler's runs where `title_func` runs, and returns what `title_func`
/// returns.
pub proof fn title_override_is_kept<P, F: Fn(&PanicInfo) -> String>(
    builder: PanicHandlerBuilder<P>,
    handler: PanicHandler<P>,
    title_func: F,
)
    requires
        builder.has_title(title_func),
        builder.builds(handler),
    ensures
        builder.title() == Some(*handler.title()),
        stands_for(*handler.title(), title_func),
{
}

/// A body formatter that was set is the handler's body formatter.
pub proof fn body_override_is_kept<P, F: Fn(&PanicInfo) -> String>(
    builder: PanicHandlerBuilder<P>,
    handler: PanicHandler<P>,
    body_func: F,
)
    requires
        builder.has_body(body_func),
        builder.builds(handler),
    ensures
        builder.body() == Some(*handler.body()),
        stands_for(*handler.body(), body_func),
{
}

/// A callback that was set as the hook is the handler's hook, and it leaves
/// no earlier interceptor for the host to run.
pub proof fn call_override_is_kept<P, F: Fn(&PanicInfo)>(
    builder: PanicHandlerBuilder<P>,
    handler: PanicHandler<P>,
    call_func: F,
)
    requires
        builder.has_call(call_func),
        builder.builds(handler),
    ensures
        *handler.hook() matches PanicHook::Call(callback) && stands_for(callback, call_func),
        handler.hook().existing() is None,
{
}

/// Where the builder was given the interceptor that was installed before, the
/// handler's hook runs on every panic and hands that interceptor back, so
/// that the host runs it after the handler's own report.
pub proof fn existing_interceptor_is_handed_back<P>(
    builder: PanicHandlerBuilder<P>,
    handler: PanicHandler<P>,
    existing: P,
    info: &PanicInfo,
)
    requires
        builder.has_existing(existing),
        builder.builds(handler),
    ensures
        handler.hook().accepts(info),
        handler.hook().existing() == Some(existing),
{
}

} // verus!
