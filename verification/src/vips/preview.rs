//! Previews of a source image and of what it will look like once converted,
//! plus a real prediction of the output file size.
//!
//! The result preview is a round trip: encode the image at the settings the
//! user has chosen, measure the file that comes out, then shrink that file to
//! something displayable. This module holds the decisions of that round trip
//! (the commands, what counts as a PNG, which error line to show, the newest
//! request winning, the debounce timer); the processes and threads that carry
//! it out live with the application.

use vstd::prelude::*;
use crate::settings::{same_settings, ConversionSettings};
use crate::text::{
    chars_eq, chars_of, decimal, decimal_string, last_nonblank, last_nonblank_line, lossy_text, parse_u32,
    parse_u32_spec, string_of, trim, trim_bounds, sub_chars, utf8_lossy,
};

verus! {

/// Longest edge of a rendered preview, in pixels.
///
/// Generous enough to judge compression artefacts when the panel is wide,
/// small enough that decoding and uploading it is imperceptible.
pub const PREVIEW_MAX_SIDE: u32 = 720;

/// What went wrong producing a preview.
#[derive(Debug, Clone, PartialEq, Eq)]
pub enum PreviewError {
    SpawnFailed { reason: String },
    VipsFailed { message: String },
    NoOutput,
    Superseded,
}

impl PreviewError {
    /// The message shown to the user.
    pub open spec fn message_text(self) -> Seq<char> {
        match self {
            PreviewError::SpawnFailed { reason } => "could not start vips: "@ + reason@,
            PreviewError::VipsFailed { message } => message@,
            PreviewError::NoOutput => "vips produced no image data"@,
            PreviewError::Superseded => "superseded"@,
        }
    }

    /// The message shown to the user.
    pub fn message(&self) -> (s: String)
        ensures
            s@ == self.message_text(),
    {
        let mut s = String::new();
        match self {
            PreviewError::SpawnFailed { reason } => {
                s.append("could not start vips: ");
                s.append(reason.as_str());
            },
            PreviewError::VipsFailed { message } => {
                s.append(message.as_str());
            },
            PreviewError::NoOutput => {
                s.append("vips produced no image data");
            },
            PreviewError::Superseded => {
                s.append("superseded");
            },
        }
        s
    }
}

/// A rendered PNG, ready to be decoded into a texture.
#[derive(Debug, Clone)]
pub struct RenderedImage {
    /// PNG-encoded preview bytes.
    pub png: Vec<u8>,
}

/// Everything a preview produces.
#[derive(Debug, Clone)]
pub struct Preview {
    /// The source as it is now.
    pub source: RenderedImage,
    /// Pixel dimensions of the source, when they could be read.
    pub source_dimensions: Option<(u32, u32)>,
    /// Size of the source file on disk.
    pub source_bytes: u64,
    /// The converted result.
    pub result: RenderedImage,
    /// Exact size of the encoded output, measured rather than estimated.
    pub predicted_bytes: u64,
    /// Pixel dimensions the output would have, when they could be read.
    pub result_dimensions: Option<(u32, u32)>,
}

/// The eight bytes every PNG file starts with.
pub open spec fn png_signature() -> Seq<u8> {
    seq![0x89u8, 0x50u8, 0x4eu8, 0x47u8, 0x0du8, 0x0au8, 0x1au8, 0x0au8]
}

/// PNG signature check, so a probe cannot be fooled by an error message.
pub fn is_png(bytes: &[u8]) -> (b: bool)
    ensures
        b == (bytes@.len() >= 8 && bytes@.subrange(0, 8) == png_signature()),
{
    if bytes.len() < 8 {
        return false;
    }
    let sig: [u8; 8] = [0x89, 0x50, 0x4e, 0x47, 0x0d, 0x0a, 0x1a, 0x0a];
    assert(sig@ =~= png_signature());
    let mut i: usize = 0;
    while i < 8
        invariant
            i <= 8 <= bytes@.len(),
            sig@ == png_signature(),
            bytes@.subrange(0, i as int) == png_signature().subrange(0, i as int),
        decreases 8 - i,
    {
        if bytes[i] != sig[i] {
            assert(bytes@.subrange(0, 8)[i as int] != png_signature()[i as int]);
            return false;
        }
        assert(bytes@.subrange(0, i + 1) =~= png_signature().subrange(0, i + 1));
        i += 1;
    }
    assert(png_signature().subrange(0, 8) =~= png_signature());
    true
}

/// The most specific line of a libvips error message: the last line that
/// is not blank, trimmed.
pub fn last_line(text: &str) -> (r: Option<String>)
    ensures
        match r {
            Some(l) => last_nonblank_line(text@) == Some(l@),
            None => last_nonblank_line(text@) is None,
        },
{
    let v = chars_of(text);
    match last_nonblank(v.as_slice()) {
        Some(l) => Some(string_of(l.as_slice())),
        None => None,
    }
}

/// The message of a failed preview command: the last line of its stderr,
/// or a plain "vips failed" when it printed nothing.
pub open spec fn failure_text(stderr: Seq<char>) -> Seq<char> {
    match last_nonblank_line(stderr) {
        Some(l) => l,
        None => "vips failed"@,
    }
}

/// The error for a preview command that exited unsuccessfully.
pub fn failure(stderr: &str) -> (e: PreviewError)
    ensures
        e matches PreviewError::VipsFailed { message } && message@ == failure_text(stderr@),
{
    match last_line(stderr) {
        Some(l) => PreviewError::VipsFailed { message: l },
        None => PreviewError::VipsFailed { message: "vips failed".to_owned() },
    }
}

/// The arguments that shrink `image` into a displayable PNG at `target`
/// (`.png` alone means standard output): fit inside the preview box, and
/// never enlarge.
pub open spec fn thumbnail_args_spec(image: Seq<char>, target: Seq<char>) -> Seq<Seq<char>> {
    let side = decimal(PREVIEW_MAX_SIDE as nat);
    seq!["thumbnail"@, image, target, side, "--height"@, side, "--size"@, "down"@]
}

/// The arguments that shrink `image` into a displayable PNG at `target`.
pub fn thumbnail_args(image: &str, target: &str) -> (v: Vec<String>)
    ensures
        v@.map_values(|a: String| a@) == thumbnail_args_spec(image@, target@),
{
    let side = decimal_string(PREVIEW_MAX_SIDE as u64);
    let mut v: Vec<String> = Vec::new();
    v.push("thumbnail".to_owned());
    v.push(image.to_owned());
    v.push(target.to_owned());
    v.push(side.clone());
    v.push("--height".to_owned());
    v.push(side);
    v.push("--size".to_owned());
    v.push("down".to_owned());
    assert(v@.map_values(|a: String| a@) =~= thumbnail_args_spec(image@, target@));
    v
}

/// A pixel dimension as `vipsheader -f width` prints it: the output,
/// trimmed, read as a number.
pub open spec fn dimension_of(stdout: Seq<u8>) -> Option<u32> {
    parse_u32_spec(trim(utf8_lossy(stdout)))
}

/// Read a pixel dimension from `vipsheader -f` output, if it is a number.
pub fn parse_dimension(stdout: &[u8]) -> (r: Option<u32>)
    ensures
        r == dimension_of(stdout@),
{
    let text = lossy_text(stdout);
    let v = chars_of(text.as_str());
    let (a, b) = trim_bounds(v.as_slice());
    let t = sub_chars(v.as_slice(), a, b);
    parse_u32(t.as_slice())
}

/// One preview request.
#[derive(Debug, Clone)]
pub struct Request {
    pub generation: u64,
    pub input: String,
    pub settings: ConversionSettings,
}

/// A finished request, successful or not.
#[derive(Debug)]
pub struct Outcome {
    pub generation: u64,
    pub input: String,
    pub result: Result<Preview, PreviewError>,
}

/// A superseded render has nothing worth reporting: its replacement is
/// already queued.
pub fn worth_reporting(result: &Result<Preview, PreviewError>) -> (b: bool)
    ensures
        b == !(result matches Err(PreviewError::Superseded)),
{
    match result {
        Err(PreviewError::Superseded) => false,
        _ => true,
    }
}

/// What a worker finds when it looks in the request slot.
#[derive(Debug)]
pub enum Taken {
    /// A request to render.
    Request(Request),
    /// Nothing yet: wait for a `put` or a shutdown.
    Empty,
    /// The engine is shutting down.
    Shutdown,
}

/// A single-slot request mailbox where the newest request wins.
///
/// Holding only the latest request is the whole point: while one preview is
/// rendering, a user dragging a quality slider can generate dozens more, and
/// every one but the last is worthless by the time a worker is free.
#[derive(Debug)]
pub struct RequestSlot {
    pub request: Option<Request>,
    pub shutdown: bool,
}

impl RequestSlot {
    /// The slot after `put(request)`.
    pub open spec fn after_put(self, request: Request) -> RequestSlot {
        RequestSlot { request: Some(request), shutdown: self.shutdown }
    }

    /// What `take` finds in the slot.
    pub open spec fn taken(self) -> Taken {
        if self.shutdown {
            Taken::Shutdown
        } else {
            match self.request {
                Some(r) => Taken::Request(r),
                None => Taken::Empty,
            }
        }
    }

    /// The slot after `take`.
    pub open spec fn after_take(self) -> RequestSlot {
        if self.shutdown {
            self
        } else {
            RequestSlot { request: None, shutdown: false }
        }
    }

    /// The slot after `shutdown`.
    pub open spec fn after_shutdown(self) -> RequestSlot {
        RequestSlot { request: None, shutdown: true }
    }

    pub fn new() -> (s: Self)
        ensures
            s.request is None,
            !s.shutdown,
    {
        RequestSlot { request: None, shutdown: false }
    }

    /// Store a request, discarding any that had not started yet. Returns
    /// true when an unstarted request was displaced.
    pub fn put(&mut self, request: Request) -> (displaced: bool)
        ensures
            displaced == old(self).request is Some,
            *final(self) == old(self).after_put(request),
    {
        let displaced = self.request.is_some();
        self.request = Some(request);
        displaced
    }

    /// Take the waiting request, leaving the slot empty. After a shutdown
    /// nothing is handed out.
    pub fn take(&mut self) -> (t: Taken)
        ensures
            t == old(self).taken(),
            *final(self) == old(self).after_take(),
    {
        if self.shutdown {
            return Taken::Shutdown;
        }
        match self.request.take() {
            Some(r) => Taken::Request(r),
            None => Taken::Empty,
        }
    }

    /// Stop handing out requests, discarding any that had not started.
    pub fn shutdown(&mut self)
        ensures
            *final(self) == old(self).after_shutdown(),
    {
        self.shutdown = true;
        self.request = None;
    }
}

/// Collapses a burst of changes into one action after things settle.
///
/// Dragging a quality slider changes the settings on every frame. Without
/// this, each frame would kick off a full encode of the image. Times are in
/// nanoseconds from any fixed starting point.
#[derive(Debug, Clone, Copy, PartialEq, Eq, Structural)]
pub struct Debouncer {
    pub delay: u64,
    pub pending_since: Option<u64>,
}

/// Time from `since` to `now`, zero when `now` is earlier.
pub open spec fn elapsed(since: u64, now: u64) -> nat {
    if now >= since {
        (now - since) as nat
    } else {
        0
    }
}

impl Debouncer {
    /// The debouncer after a change at `now`.
    pub open spec fn touched(self, now: u64) -> Debouncer {
        Debouncer { pending_since: Some(now), ..self }
    }

    /// The debouncer after `take_if_ready(now)`.
    pub open spec fn after_take(self, now: u64) -> Debouncer {
        if self.ready(now) {
            Debouncer { pending_since: None, ..self }
        } else {
            self
        }
    }

    /// What `time_remaining(now)` reports.
    pub open spec fn time_left(self, now: u64) -> Option<u64> {
        match self.pending_since {
            Some(since) => Some(
                if elapsed(since, now) >= self.delay {
                    0
                } else {
                    (self.delay - elapsed(since, now)) as u64
                },
            ),
            None => None,
        }
    }

    pub fn new(delay: u64) -> (d: Self)
        ensures
            d.delay == delay,
            d.pending_since is None,
    {
        Debouncer { delay, pending_since: None }
    }

    /// Note that something changed, restarting the timer.
    pub fn touch(&mut self, now: u64)
        ensures
            *final(self) == old(self).touched(now),
    {
        self.pending_since = Some(now);
    }

    /// True when a change is waiting to be acted on.
    pub fn is_pending(&self) -> (b: bool)
        ensures
            b == self.pending_since is Some,
    {
        self.pending_since.is_some()
    }

    /// The pending change is due at `now`.
    pub open spec fn ready(self, now: u64) -> bool {
        match self.pending_since {
            Some(since) => elapsed(since, now) >= self.delay,
            None => false,
        }
    }

    /// Consume the pending change if the delay has elapsed.
    pub fn take_if_ready(&mut self, now: u64) -> (fired: bool)
        ensures
            fired == old(self).ready(now),
            *final(self) == old(self).after_take(now),
    {
        match self.pending_since {
            Some(since) => {
                let passed = if now >= since {
                    now - since
                } else {
                    0
                };
                if passed >= self.delay {
                    self.pending_since = None;
                    true
                } else {
                    false
                }
            },
            None => false,
        }
    }

    /// How long until the pending change fires, if one is waiting; zero
    /// once it is due.
    pub fn time_remaining(&self, now: u64) -> (r: Option<u64>)
        ensures
            r == self.time_left(now),
    {
        match self.pending_since {
            Some(since) => {
                let passed = if now >= since {
                    now - since
                } else {
                    0
                };
                Some(if passed >= self.delay {
                    0
                } else {
                    self.delay - passed
                })
            },
            None => None,
        }
    }

    /// Forget any pending change.
    pub fn clear(&mut self)
        ensures
            final(self).pending_since is None,
            final(self).delay == old(self).delay,
    {
        self.pending_since = None;
    }
}

/// What the window should do about the preview this frame.
#[derive(Debug)]
pub enum PreviewStep {
    /// Nothing is selected: drop whatever preview is shown.
    Forget,
    /// Nothing to do: a batch is running, or nothing is pending.
    Wait,
    /// Render a preview of `input` at `settings` now.
    Render { input: String, settings: ConversionSettings },
    /// A render is pending; look again after this many nanoseconds.
    WakeAfter(u64),
}

/// Decides when a preview is rendered: only for the selected file, only once
/// the file and settings have stopped changing for the debounce delay, and
/// not while a batch keeps the machine busy.
#[derive(Debug)]
pub struct PreviewScheduler {
    /// The file and settings the shown (or coming) preview is of.
    pub wanted: Option<(String, ConversionSettings)>,
    pub debounce: Debouncer,
}

/// `wanted` names this file at these settings.
pub open spec fn wants(wanted: Option<(String, ConversionSettings)>, input: Seq<char>, settings: ConversionSettings) -> bool {
    match wanted {
        Some((i, s)) => i@ == input && same_settings(s, settings),
        None => false,
    }
}

impl PreviewScheduler {
    pub fn new(delay: u64) -> (s: Self)
        ensures
            s.wanted is None,
            s.debounce == (Debouncer { delay, pending_since: None }),
    {
        PreviewScheduler { wanted: None, debounce: Debouncer::new(delay) }
    }

    /// Forget what the preview was of, and any pending render.
    pub fn forget(&mut self)
        ensures
            final(self).wanted is None,
            final(self).debounce == (Debouncer { pending_since: None, ..old(self).debounce }),
    {
        self.wanted = None;
        self.debounce.clear();
    }

    /// Decide this frame's step for the `selected` file at `settings` at
    /// time `now`. Also says whether the file or the settings changed since
    /// the last step, after which an earlier preview error no longer applies.
    pub fn step(
        &mut self,
        selected: Option<&str>,
        settings: &ConversionSettings,
        busy: bool,
        now: u64,
    ) -> (r: (PreviewStep, bool))
        ensures
            selected is None ==> {
                &&& r.0 is Forget
                &&& !r.1
                &&& final(self).wanted is None
                &&& final(self).debounce == (Debouncer { pending_since: None, ..old(self).debounce })
            },
            selected matches Some(input) ==> {
                let changed = !wants(old(self).wanted, input@, *settings);
                let d = if changed {
                    old(self).debounce.touched(now)
                } else {
                    old(self).debounce
                };
                &&& r.1 == changed
                &&& wants(final(self).wanted, input@, *settings)
                &&& busy ==> r.0 is Wait && final(self).debounce == d
                &&& !busy && d.ready(now) ==> final(self).debounce == d.after_take(now) && (
                r.0 matches PreviewStep::Render { input: i, settings: s } && i@ == input@
                    && same_settings(s, *settings))
                &&& !busy && !d.ready(now) ==> final(self).debounce == d && match d.time_left(now) {
                    Some(t) => r.0 == PreviewStep::WakeAfter(t),
                    None => r.0 is Wait,
                }
            },
    {
        let input = match selected {
            None => {
                self.forget();
                return (PreviewStep::Forget, false);
            },
            Some(input) => input,
        };
        let changed = match &self.wanted {
            Some((i, s)) => !(same_text(i.as_str(), input) && s.same_as(settings)),
            None => true,
        };
        if changed {
            self.wanted = Some((input.to_owned(), settings.duplicate()));
            self.debounce.touch(now);
        }
        if busy {
            return (PreviewStep::Wait, changed);
        }
        if self.debounce.take_if_ready(now) {
            return (PreviewStep::Render { input: input.to_owned(), settings: settings.duplicate() }, changed);
        }
        match self.debounce.time_remaining(now) {
            Some(t) => (PreviewStep::WakeAfter(t), changed),
            None => (PreviewStep::Wait, changed),
        }
    }
}

fn same_text(a: &str, b: &str) -> (r: bool)
    ensures
        r == (a@ == b@),
{
    let x = chars_of(a);
    let y = chars_of(b);
    chars_eq(x.as_slice(), y.as_slice())
}

/// The newest request wins: of any requests put before a worker takes one,
/// only the last is handed out, and taking leaves the slot empty.
pub proof fn lemma_newest_request_wins(s: RequestSlot, older: Request, newer: Request)
    requires
        !s.shutdown,
    ensures
        s.after_put(older).after_put(newer).taken() == Taken::Request(newer),
        s.after_put(older).after_put(newer).after_take().taken() is Empty,
{
}

/// After a shutdown nothing is handed out, whatever was pending and
/// whatever is put later.
pub proof fn lemma_shutdown_is_final(s: RequestSlot, later: Request)
    ensures
        s.after_shutdown().taken() is Shutdown,
        s.after_shutdown().after_put(later).taken() is Shutdown,
        s.after_shutdown().after_take() == s.after_shutdown(),
{
}

/// The debouncer fires once the delay has passed since the last change and
/// not before; each change restarts the timer; and one change fires once.
pub proof fn lemma_debounce(d: Debouncer, first: u64, last: u64, now: u64, later: u64)
    requires
        first <= last,
    ensures
        d.touched(first).touched(last) == d.touched(last),
        now >= last ==> (d.touched(last).ready(now) <==> now - last >= d.delay),
        now < last ==> (d.touched(last).ready(now) <==> d.delay == 0),
        d.touched(last).ready(now) ==> !d.touched(last).after_take(now).ready(later),
        d.touched(last).time_left(now) == Some(
            if d.touched(last).ready(now) {
                0u64
            } else {
                (d.delay - elapsed(last, now)) as u64
            },
        ),
{
}

} // verus!
