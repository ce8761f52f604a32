//! The callbacks a handler gets where the application sets none.
use crate::info::{PanicInfo, PanicInfoView};
use vstd::prelude::*;

verus! {

/// The title of every panic, unless the application formats its own.
pub open spec fn default_title_text() -> Seq<char> {
    "Fatal Error"@
}

/// The location as the default body prints it.
pub open spec fn location_text(location: Option<Seq<char>>) -> Seq<char> {
    match location {
        Some(text) => text,
        None => "Unknown Location"@,
    }
}

/// The message as the default body prints it.
pub open spec fn message_text(message: Option<Seq<char>>) -> Seq<char> {
    match message {
        Some(text) => text,
        None => "No panic message available"@,
    }
}

/// The default body: a line that names the location, then the message.
pub open spec fn default_body_text(info: PanicInfoView) -> Seq<char> {
    "Unhandled panic at "@ + location_text(info.location) + ":\n"@ + message_text(info.message)
}

/// The default title formatter: the same title whatever the panic.
pub fn default_title(_info: &PanicInfo) -> (title: String)
    ensures
        title@ == default_title_text(),
{
    String::from_str("Fatal Error")
}

/// The default body formatter.
pub fn default_body(info: &PanicInfo) -> (body: String)
    ensures
        body@ == default_body_text(info@),
{
    let mut body = String::from_str("Unhandled panic at ");
    match &info.location {
        Some(text) => body.append(text.as_str()),
        None => body.append("Unknown Location"),
    }
    body.append(":\n");
    match &info.message {
        Some(text) => body.append(text.as_str()),
        None => body.append("No panic message available"),
    }
    body
}

/// The default hook: nothing is left to do once the panic is reported.
pub fn default_hook(_info: &PanicInfo) {
}

} // verus!
