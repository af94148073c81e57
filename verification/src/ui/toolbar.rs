//! The top toolbar: adding files, the output destination, and Convert.

use vstd::prelude::*;
use crate::job::Tally;
use crate::text::{chars_of, decimal, push_char, push_chars, push_decimal, sub_chars};

verus! {

/// What the user asked for this frame.
#[derive(Debug, Clone, PartialEq, Eq)]
pub enum Action {
    /// Nothing this frame.
    Idle,
    AddPaths(Vec<String>),
    Clear,
    ClearCompleted,
    StartConversion,
    Cancel,
}

/// How much work Convert would start: "all", "1 file" or "n files".
pub open spec fn pending_text(queued: nat) -> Seq<char> {
    if queued == 0 {
        "all"@
    } else if queued == 1 {
        "1 file"@
    } else {
        decimal(queued) + " files"@
    }
}

/// "3 files" / "1 file", or "all" when nothing is queued.
pub fn describe_pending(tally: Tally) -> (s: String)
    ensures
        s@ == pending_text(tally.queued as nat),
{
    if tally.queued == 0 {
        "all".to_owned()
    } else if tally.queued == 1 {
        "1 file".to_owned()
    } else {
        let mut s = String::new();
        push_decimal(&mut s, tally.queued as u64);
        s.append(" files");
        assert(s@ =~= pending_text(tally.queued as nat));
        s
    }
}

/// Whether "Clear finished" can be pressed: not while converting, and
/// only when some job has finished.
pub fn can_clear_finished(busy: bool, tally: Tally) -> (b: bool)
    ensures
        b == (!busy && tally.finished_count() > 0),
{
    !busy && (tally.done > 0 || tally.skipped > 0 || tally.failed > 0)
}

/// Whether "Clear all" can be pressed: not while converting, and only when
/// the list holds something.
pub fn can_clear_all(busy: bool, tally: Tally) -> (b: bool)
    ensures
        b == (!busy && tally.total_count() > 0),
{
    !busy && (tally.queued > 0 || tally.running > 0 || tally.done > 0 || tally.skipped > 0
        || tally.failed > 0)
}

/// Whether Convert can be pressed (it is shown when nothing is running):
/// something is queued and nothing blocks the conversion.
pub fn can_convert(tally: Tally, blocked_reason: Option<&str>) -> (b: bool)
    ensures
        b == (tally.queued > 0 && blocked_reason is None),
{
    tally.queued > 0 && blocked_reason.is_none()
}

/// Why Convert cannot be pressed: the blocking reason, when there is one;
/// otherwise that the list is empty, or that nothing is left to convert.
pub open spec fn convert_hint_text(total: int, blocked: Option<Seq<char>>) -> Seq<char> {
    match blocked {
        Some(r) => r,
        None => if total == 0 {
            "Add some images first"@
        } else {
            "Nothing left to convert"@
        },
    }
}

/// The hover text of a Convert button that cannot be pressed.
pub fn convert_disabled_hint(tally: Tally, blocked_reason: Option<&str>) -> (s: String)
    ensures
        s@ == convert_hint_text(
            tally.total_count(),
            match blocked_reason {
                Some(r) => Some(r@),
                None => None,
            },
        ),
{
    match blocked_reason {
        Some(r) => r.to_owned(),
        None => {
            if tally.queued == 0 && tally.running == 0 && tally.done == 0 && tally.skipped == 0
                && tally.failed == 0 {
                "Add some images first".to_owned()
            } else {
                "Nothing left to convert".to_owned()
            }
        },
    }
}

/// A path trimmed from the left so that it fits in `max_chars` characters
/// with the file name still visible: an ellipsis, then the last
/// `max_chars - 1` characters. A path that fits is left alone.
pub open spec fn shortened(path: Seq<char>, max_chars: nat) -> Seq<char> {
    if path.len() <= max_chars {
        path
    } else {
        let keep: int = if max_chars >= 1 { max_chars - 1 } else { 0 };
        seq!['…'] + path.subrange(path.len() - keep, path.len() as int)
    }
}

/// Trim a long path from the left so the file name stays visible.
pub fn shorten_path(path: &str, max_chars: usize) -> (r: String)
    ensures
        r@ == shortened(path@, max_chars as nat),
{
    let v = chars_of(path);
    let count = v.len();
    if count <= max_chars {
        return path.to_owned();
    }
    let keep = if max_chars >= 1 { max_chars - 1 } else { 0 };
    let tail = sub_chars(v.as_slice(), count - keep, count);
    let mut r = String::new();
    push_char(&mut r, '…');
    push_chars(&mut r, tail.as_slice());
    assert(r@ =~= shortened(path@, max_chars as nat));
    r
}

/// A shortened path never takes more than `max_chars` characters (one,
/// the ellipsis, when `max_chars` is zero), and it always ends with the
/// end of the path.
pub proof fn lemma_shortened_fits(path: Seq<char>, max_chars: nat)
    ensures
        shortened(path, max_chars).len() <= if max_chars >= 1 { max_chars } else { 1 },
        path.len() > max_chars ==> shortened(path, max_chars)[0] == '…',
        forall|i: int|
            0 <= i < (if max_chars >= 1 { max_chars - 1 } else { 0 }) && i < path.len() ==> #[trigger] shortened(
                path,
                max_chars,
            )[shortened(path, max_chars).len() - 1 - i] == path[path.len() - 1 - i],
{
}

} // verus!
