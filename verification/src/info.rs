//! What a handler is told of a panic.
use vstd::prelude::*;

verus! {

/// What is known of a panic: where it was raised and what it said. Either may
/// be missing.
pub struct PanicInfo {
    /// The place in the source, as the runtime prints it.
    pub location: Option<String>,
    /// The message of the panic, where it carried text.
    pub message: Option<String>,
}

/// A [`PanicInfo`] as contracts see it: each text by its characters.
pub struct PanicInfoView {
    /// The characters of the location.
    pub location: Option<Seq<char>>,
    /// The characters of the message.
    pub message: Option<Seq<char>>,
}

impl View for PanicInfo {
    type V = PanicInfoView;

    open spec fn view(&self) -> PanicInfoView {
        PanicInfoView {
            location: match self.location {
                Some(text) => Some(text@),
                None => None,
            },
            message: match self.message {
                Some(text) => Some(text@),
                None => None,
            },
        }
    }
}

} // verus!
