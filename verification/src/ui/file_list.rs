//! The queue table: one row per file, with status and a remove button.

use vstd::prelude::*;
use crate::summary::{plural};
use crate::text::{decimal, push_decimal};

verus! {

/// What the user did to the list this frame.
#[derive(Debug, Clone, PartialEq, Eq)]
pub enum Action {
    /// Nothing this frame.
    Idle,
    /// Select this row (for the preview panel).
    Select(usize),
    /// Remove this row.
    Remove(usize),
    /// Put this error message on the clipboard.
    CopyError(String),
}

/// The caption naming the list: how many files are queued.
pub open spec fn caption_text(len: nat) -> Seq<char> {
    decimal(len) + " file"@ + plural(len) + " queued"@
}

/// The caption naming the list.
pub fn queue_caption(len: usize) -> (s: String)
    ensures
        s@ == caption_text(len as nat),
{
    let mut s = String::new();
    push_decimal(&mut s, len as u64);
    s.append(" file");
    if len != 1 {
        s.append("s");
    }
    s.append(" queued");
    assert(s@ =~= caption_text(len as nat));
    s
}

/// What "Copy error" puts on the clipboard: the message, and the failing
/// command when there is one, because both are worth pasting into a search
/// box or a bug report.
pub open spec fn error_report_text(message: Seq<char>, command: Option<Seq<char>>) -> Seq<char> {
    match command {
        Some(c) => message + "\n\nCommand:\n"@ + c,
        None => message,
    }
}

/// What "Copy error" puts on the clipboard.
pub fn error_report(message: &str, command: &Option<String>) -> (s: String)
    ensures
        s@ == error_report_text(
            message@,
            match command {
                Some(c) => Some(c@),
                None => None,
            },
        ),
{
    let mut s = message.to_owned();
    match command {
        Some(c) => {
            s.append("\n\nCommand:\n");
            s.append(c.as_str());
        },
        None => {},
    }
    s
}

} // verus!
