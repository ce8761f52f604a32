//! Panic reporting for an application that wants more than the runtime's
//! message on the terminal.
//!
//! A [`PanicHandler`] is three callbacks: one formats a title, one formats a
//! body, and a hook runs once both have been reported. A
//! [`PanicHandlerBuilder`] collects the callbacks that the application wants
//! to set itself and fills in a default for each of the others. The host
//! installs the handler as the interceptor of the process; when a panic
//! arrives it describes it as a [`PanicInfo`], asks the handler for a
//! [`PanicReport`], logs and shows that, and lets the handler finish with its
//! hook.
//!
//! The hook may be the interceptor that the process had before, a
//! [`PanicHook::Existing`]. Such an interceptor takes the runtime's own
//! description of a panic, which only the host has, so the handler hands it
//! back for the host to run.
pub mod callback;
pub mod defaults;
pub mod handler;
pub mod hook;
pub mod info;
pub mod laws;
pub mod report;

pub use callback::{PanicHandleFn, SharedFn};
pub use handler::{PanicHandler, PanicHandlerBuilder};
pub use hook::PanicHook;
pub use info::{PanicInfo, PanicInfoView};
pub use report::PanicReport;
