//! Wording the window shows about the queue and the batch: byte counts,
//! what a drop added, and why Convert is unavailable.

use vstd::prelude::*;
use crate::job::Tally;
use crate::settings::OutputFormat;
use crate::text::{decimal, digit, push_char, push_decimal};
use crate::ui::settings_panel::{has_saver, saver_available};
use crate::vips::discovery::Capabilities;

verus! {

/// `n / d` rounded to the nearest whole number, halves to the even one.
pub open spec fn round_half_even(n: nat, d: nat) -> nat
    recommends
        d > 0,
{
    let q = n / d;
    let r = n % d;
    if 2 * r > d || (2 * r == d && q % 2 == 1) {
        q + 1
    } else {
        q
    }
}

/// A byte count for the UI: whole bytes below a kibibyte, whole kilobytes
/// (of 1024 bytes) below a mebibyte, and megabytes to one decimal place
/// above, each rounded to the nearest, halves to even.
pub open spec fn bytes_text(bytes: nat) -> Seq<char> {
    if bytes >= 1048576 {
        let tenths = round_half_even(bytes * 10, 1048576);
        decimal(tenths / 10) + seq!['.', digit(tenths % 10)] + " MB"@
    } else if bytes >= 1024 {
        decimal(round_half_even(bytes, 1024)) + " kB"@
    } else {
        decimal(bytes) + " B"@
    }
}

/// Render a byte count compactly for the UI.
pub fn format_bytes(bytes: u64) -> (s: String)
    ensures
        s@ == bytes_text(bytes as nat),
{
    let mut s = String::new();
    if bytes >= 1048576 {
        let n: u128 = bytes as u128 * 10;
        let q: u128 = n / 1048576;
        let r: u128 = n % 1048576;
        let tenths: u128 = if 2 * r > 1048576 || (2 * r == 1048576 && q % 2 == 1) {
            q + 1
        } else {
            q
        };
        assert(tenths == round_half_even(bytes as nat * 10, 1048576));
        assert(tenths <= u64::MAX);
        let whole = (tenths / 10) as u64;
        let frac = (tenths % 10) as u8;
        push_decimal(&mut s, whole);
        push_char(&mut s, '.');
        let c = (frac + 48) as char;
        assert(c == digit((tenths % 10) as nat));
        push_char(&mut s, c);
        s.append(" MB");
    } else if bytes >= 1024 {
        let q = bytes / 1024;
        let r = bytes % 1024;
        let k = if 2 * r > 1024 || (2 * r == 1024 && q % 2 == 1) {
            q + 1
        } else {
            q
        };
        push_decimal(&mut s, k);
        s.append(" kB");
    } else {
        push_decimal(&mut s, bytes);
        s.append(" B");
    }
    assert(s@ =~= bytes_text(bytes as nat));
    s
}

/// Wording for "added N files", including the nothing-happened cases.
pub open spec fn addition_text(added: nat, dropped: nat) -> Seq<char> {
    if added == 0 && dropped == 1 {
        "Nothing added: that is not an image we can read."@
    } else if added == 0 {
        "Nothing added: no new images found."@
    } else if added == 1 {
        "Added 1 file."@
    } else {
        "Added "@ + decimal(added) + " files."@
    }
}

/// Wording for "added N files" after `dropped` paths were offered.
pub fn describe_addition(added: usize, dropped: usize) -> (s: String)
    ensures
        s@ == addition_text(added as nat, dropped as nat),
{
    if added == 0 && dropped == 1 {
        "Nothing added: that is not an image we can read.".to_owned()
    } else if added == 0 {
        "Nothing added: no new images found.".to_owned()
    } else if added == 1 {
        "Added 1 file.".to_owned()
    } else {
        let mut s = String::new();
        s.append("Added ");
        push_decimal(&mut s, added as u64);
        s.append(" files.");
        assert(s@ =~= addition_text(added as nat, dropped as nat));
        s
    }
}

/// Why Convert is unavailable for `format`, if it is: the libvips build
/// has no saver for it.
pub open spec fn blocked_text(format: OutputFormat, capabilities: Capabilities) -> Option<
    Seq<char>,
> {
    if saver_available(capabilities, format) {
        None
    } else {
        Some(
            "This libvips build cannot write "@ + format.label_text() + ": it has no "@
                + format.saver_text() + "."@,
        )
    }
}

/// Why Convert is unavailable for `format`, if it is.
pub fn convert_blocked_reason(format: OutputFormat, capabilities: Capabilities) -> (r: Option<
    String,
>)
    ensures
        match r {
            Some(s) => blocked_text(format, capabilities) == Some(s@),
            None => blocked_text(format, capabilities) is None,
        },
{
    if has_saver(capabilities, format) {
        return None;
    }
    let mut s = String::new();
    s.append("This libvips build cannot write ");
    s.append(format.label());
    s.append(": it has no ");
    s.append(format.saver_name());
    s.append(".");
    assert(Some(s@) =~= blocked_text(format, capabilities));
    Some(s)
}

/// "s" for a count other than one.
pub open spec fn plural(n: nat) -> Seq<char> {
    if n == 1 {
        Seq::empty()
    } else {
        "s"@
    }
}

fn push_plural(s: &mut String, n: usize)
    ensures
        final(s)@ == old(s)@ + plural(n as nat),
{
    if n != 1 {
        s.append("s");
    }
}

/// The progress bar's caption while a batch runs.
pub open spec fn progress_caption(t: Tally) -> Seq<char> {
    decimal(t.finished_count() as nat) + " of "@ + decimal(t.total_count() as nat) + " · "@
        + decimal(t.running as nat) + " running"@
}

/// The progress bar's caption: finished of total, and how many are running.
pub fn progress_text(t: Tally) -> (s: String)
    requires
        t.total_count() <= usize::MAX,
    ensures
        s@ == progress_caption(t),
{
    let mut s = String::new();
    push_decimal(&mut s, t.finished() as u64);
    s.append(" of ");
    push_decimal(&mut s, t.total() as u64);
    s.append(" · ");
    push_decimal(&mut s, t.running as u64);
    s.append(" running");
    assert(s@ =~= progress_caption(t));
    s
}

/// The summary strip's count of the queue.
pub open spec fn tally_caption(t: Tally) -> Seq<char> {
    if t.total_count() == 0 {
        "No files queued"@
    } else {
        decimal(t.total_count() as nat) + " file"@ + plural(t.total_count() as nat) + " · "@
            + decimal(t.done as nat) + " done · "@ + decimal(t.skipped as nat) + " skipped · "@
            + decimal(t.failed as nat) + " failed"@
    }
}

/// The summary strip's count of the queue.
pub fn tally_line(t: Tally) -> (s: String)
    requires
        t.total_count() <= usize::MAX,
    ensures
        s@ == tally_caption(t),
{
    let total = t.total();
    if total == 0 {
        return "No files queued".to_owned();
    }
    let mut s = String::new();
    push_decimal(&mut s, total as u64);
    s.append(" file");
    push_plural(&mut s, total);
    s.append(" · ");
    push_decimal(&mut s, t.done as u64);
    s.append(" done · ");
    push_decimal(&mut s, t.skipped as u64);
    s.append(" skipped · ");
    push_decimal(&mut s, t.failed as u64);
    s.append(" failed");
    assert(s@ =~= tally_caption(t));
    s
}

/// The notice at the end of a batch. `elapsed` is the duration in seconds
/// as it is to be shown; `bytes` is what the batch wrote.
pub open spec fn batch_notice_text(cancelled: bool, elapsed: Seq<char>, t: Tally, bytes: nat) -> Seq<
    char,
> {
    if cancelled {
        "Cancelled after "@ + elapsed + "s. "@ + decimal(t.done as nat) + " converted, "@ + decimal(
            t.skipped as nat,
        ) + " skipped, "@ + decimal(t.failed as nat) + " failed, "@ + decimal(t.queued as nat)
            + " still queued."@
    } else {
        "Converted "@ + decimal(t.done as nat) + " file"@ + plural(t.done as nat) + " in "@ + elapsed
            + "s ("@ + bytes_text(bytes) + " written)"@ + (if t.skipped > 0 {
            ", "@ + decimal(t.skipped as nat) + " skipped"@
        } else {
            Seq::empty()
        }) + (if t.failed > 0 {
            ", "@ + decimal(t.failed as nat) + " failed"@
        } else {
            Seq::empty()
        }) + "."@
    }
}

/// The notice at the end of a batch: what was converted, skipped and
/// failed, how long it took and how much it wrote, or, after a cancel, what
/// is still queued.
pub fn batch_notice(cancelled: bool, elapsed: &str, t: Tally, bytes: u64) -> (s: String)
    ensures
        s@ == batch_notice_text(cancelled, elapsed@, t, bytes as nat),
{
    let mut s = String::new();
    if cancelled {
        s.append("Cancelled after ");
        s.append(elapsed);
        s.append("s. ");
        push_decimal(&mut s, t.done as u64);
        s.append(" converted, ");
        push_decimal(&mut s, t.skipped as u64);
        s.append(" skipped, ");
        push_decimal(&mut s, t.failed as u64);
        s.append(" failed, ");
        push_decimal(&mut s, t.queued as u64);
        s.append(" still queued.");
    } else {
        s.append("Converted ");
        push_decimal(&mut s, t.done as u64);
        s.append(" file");
        push_plural(&mut s, t.done);
        s.append(" in ");
        s.append(elapsed);
        s.append("s (");
        let written = format_bytes(bytes);
        s.append(written.as_str());
        s.append(" written)");
        if t.skipped > 0 {
            s.append(", ");
            push_decimal(&mut s, t.skipped as u64);
            s.append(" skipped");
        }
        if t.failed > 0 {
            s.append(", ");
            push_decimal(&mut s, t.failed as u64);
            s.append(" failed");
        }
        s.append(".");
    }
    assert(s@ =~= batch_notice_text(cancelled, elapsed@, t, bytes as nat));
    s
}

/// The notice when persisted settings named a format this libvips cannot
/// write and `now` was selected instead.
pub open spec fn format_switch_text(abandoned: OutputFormat, now: OutputFormat) -> Seq<char> {
    "This libvips build cannot write "@ + abandoned.label_text() + " (no "@
        + abandoned.saver_text() + "), so "@ + now.label_text() + " is selected instead."@
}

/// The notice when a format the build cannot write was replaced.
pub fn format_switch_notice(abandoned: OutputFormat, now: OutputFormat) -> (s: String)
    ensures
        s@ == format_switch_text(abandoned, now),
{
    let mut s = String::new();
    s.append("This libvips build cannot write ");
    s.append(abandoned.label());
    s.append(" (no ");
    s.append(abandoned.saver_name());
    s.append("), so ");
    s.append(now.label());
    s.append(" is selected instead.");
    assert(s@ =~= format_switch_text(abandoned, now));
    s
}

} // verus!
