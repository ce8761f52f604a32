//! What is shown of a panic.
use crate::defaults::{default_body, default_body_text, default_title, default_title_text};
use crate::info::{PanicInfo, PanicInfoView};
use vstd::prelude::*;

verus! {

/// The title and the body of one panic, ready to be logged and shown.
pub struct PanicReport {
    /// What the title formatter returned.
    pub title: String,
    /// What the body formatter returned.
    pub body: String,
}

/// The title of a report whose title formatter failed.
pub open spec fn fallback_title_text() -> Seq<char> {
    default_title_text()
}

/// The body of a report whose body formatter failed: the default body of a
/// panic of which nothing is known.
pub open spec fn fallback_body_text() -> Seq<char> {
    default_body_text(PanicInfoView { location: None, message: None })
}

/// The line that is logged for a title and a body: the title, a line break,
/// the body.
pub open spec fn log_text(title: Seq<char>, body: Seq<char>) -> Seq<char> {
    title + "\n"@ + body
}

impl PanicReport {
    /// The report for what the two formatters came back with. `None` stands
    /// for a formatter that failed: its text is replaced by a fixed one, so
    /// that there is a report whatever the formatters did.
    pub fn from_outcomes(title: Option<String>, body: Option<String>) -> (report: PanicReport)
        ensures
            match title {
                Some(text) => report.title == text,
                None => report.title@ == fallback_title_text(),
            },
            match body {
                Some(text) => report.body == text,
                None => report.body@ == fallback_body_text(),
            },
    {
        let title = match title {
            Some(text) => text,
            None => default_title(&PanicInfo { location: None, message: None }),
        };
        let body = match body {
            Some(text) => text,
            None => default_body(&PanicInfo { location: None, message: None }),
        };
        PanicReport { title, body }
    }

    /// The line to log.
    pub fn log_line(&self) -> (line: String)
        ensures
            line@ == log_text(self.title@, self.body@),
    {
        let mut line = self.title.clone();
        line.append("\n");
        line.append(self.body.as_str());
        line
    }
}

} // verus!
