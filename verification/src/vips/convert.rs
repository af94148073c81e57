//! The decisions around one conversion: where the output goes when a file
//! is already there, the arguments to run, and what the run's result means.
//!
//! Each conversion runs as its own `vips` process, started, polled and
//! cancelled outside this library.

use vstd::prelude::*;
use vstd::utf8::encode_utf8;
use crate::path::{dir_prefix, extension, file_stem, path_extension, chars_of_stem, stripped_dir_prefix};
use crate::settings::{output_path, ConversionSettings, OverwritePolicy};
use crate::text::{
    lemma_decimal_value,
    chars_of, decimal, find_chars, find_from, is_upper, is_uppercase, last_nonblank,
    last_nonblank_line, lossy_text, push_chars, push_char, push_decimal, push_signed_decimal,
    signed_decimal, string_of, sub_chars, trim, trim_bounds, utf8_lossy, contains_char,
};
use super::command::{build, build_spec, display_arg, join_with, VipsArgs};
use super::discovery::VipsVersion;

verus! {

/// How a conversion ended.
#[derive(Debug, Clone, PartialEq, Eq)]
pub enum Outcome {
    /// Written successfully to this path, `bytes` long.
    Written { output: String, bytes: u64 },
    /// The output already existed and the policy said to leave it alone.
    Skipped { output: String },
}

/// Why a conversion failed.
#[derive(Debug, Clone, PartialEq, Eq)]
pub enum ConvertError {
    InputMissing { input: String },
    OutputDirUnusable { dir: String, reason: String },
    SpawnFailed { reason: String },
    /// vips ran and reported a problem. `message` is its stderr, cleaned up;
    /// `command` is what was run, for the "copy error" action in the UI.
    VipsFailed { message: String, command: String },
    OutputMissing { output: String },
    /// The output exists and every numbered name next to it is taken too,
    /// so renaming has nowhere to write without replacing a file.
    NoFreeName { output: String },
    Cancelled,
}

impl ConvertError {
    /// The message shown to the user.
    pub open spec fn message_text(self) -> Seq<char> {
        match self {
            ConvertError::InputMissing { input } => input@ + " no longer exists"@,
            ConvertError::OutputDirUnusable { dir, reason } =>
                "could not create the output folder "@ + dir@ + ": "@ + reason@,
            ConvertError::SpawnFailed { reason } => "could not start vips: "@ + reason@,
            ConvertError::VipsFailed { message, command } => message@,
            ConvertError::OutputMissing { output } =>
                "vips reported success but wrote no file to "@ + output@,
            ConvertError::NoFreeName { output } =>
                "no free name left next to "@ + output@ + ", so nothing was written"@,
            ConvertError::Cancelled => "cancelled"@,
        }
    }

    /// The message shown to the user.
    pub fn message(&self) -> (s: String)
        ensures
            s@ == self.message_text(),
    {
        let mut s = String::new();
        match self {
            ConvertError::InputMissing { input } => {
                s.append(input.as_str());
                s.append(" no longer exists");
            },
            ConvertError::OutputDirUnusable { dir, reason } => {
                s.append("could not create the output folder ");
                s.append(dir.as_str());
                s.append(": ");
                s.append(reason.as_str());
            },
            ConvertError::SpawnFailed { reason } => {
                s.append("could not start vips: ");
                s.append(reason.as_str());
            },
            ConvertError::VipsFailed { message, command } => {
                s.append(message.as_str());
            },
            ConvertError::OutputMissing { output } => {
                s.append("vips reported success but wrote no file to ");
                s.append(output.as_str());
            },
            ConvertError::NoFreeName { output } => {
                s.append("no free name left next to ");
                s.append(output.as_str());
                s.append(", so nothing was written");
            },
            ConvertError::Cancelled => {
                s.append("cancelled");
            },
        }
        assert(s@ =~= self.message_text());
        s
    }
}

/// What to do about an existing output file.
#[derive(Debug, Clone, PartialEq, Eq)]
pub enum Collision {
    /// Write to this path.
    Proceed(String),
    /// Do nothing.
    Skip,
    /// Renaming was asked for, but every numbered name is taken.
    NoFreeName,
}

/// How many numbered names are tried before giving up.
pub const MAX_ATTEMPTS: u32 = 10000;

/// `name (n).ext` next to `nominal`; `name (n)` when it has no extension.
pub open spec fn numbered_name(nominal: Seq<char>, n: nat) -> Seq<char> {
    let stem = match file_stem(nominal) {
        Some(s) => s,
        None => Seq::empty(),
    };
    let ext = match extension(nominal) {
        Some(e) => e,
        None => Seq::empty(),
    };
    dir_prefix(nominal) + stem + seq![' ', '('] + decimal(n) + seq![')'] + if ext.len() == 0 {
        Seq::<char>::empty()
    } else {
        seq!['.'] + ext
    }
}

/// The numbered names are all different: `name (1).ext`, `name (2).ext`,
/// ... never repeat, so each probe looks at a new path.
pub proof fn lemma_numbered_names_distinct(nominal: Seq<char>, m: nat, n: nat)
    requires
        m != n,
    ensures
        numbered_name(nominal, m) != numbered_name(nominal, n),
{
    lemma_decimal_value(m);
    lemma_decimal_value(n);
    let stem = match file_stem(nominal) {
        Some(s) => s,
        None => Seq::empty(),
    };
    let ext = match extension(nominal) {
        Some(e) => e,
        None => Seq::empty(),
    };
    let head = dir_prefix(nominal) + stem + seq![' ', '('];
    let tail = seq![')'] + if ext.len() == 0 {
        Seq::<char>::empty()
    } else {
        seq!['.'] + ext
    };
    let (a, b) = (numbered_name(nominal, m), numbered_name(nominal, n));
    assert(a =~= head + decimal(m) + tail);
    assert(b =~= head + decimal(n) + tail);
    if a == b {
        assert(decimal(m).len() == decimal(n).len());
        let lo: int = head.len() as int;
        let hi: int = lo + decimal(m).len();
        assert(a.subrange(lo, hi) =~= decimal(m));
        assert(b.subrange(lo, hi) =~= decimal(n));
    }
}

/// The existence probe may answer `b` for the path `p`.
pub open spec fn probe_says<F: Fn(&str) -> bool>(probe: F, p: Seq<char>, b: bool) -> bool {
    exists|s: &str| s@ == p && call_ensures(probe, (s,), b)
}

/// `r` is the first numbered name for `nominal` that `probe` said is free.
pub open spec fn free_name<F: Fn(&str) -> bool>(probe: F, nominal: Seq<char>, r: Seq<char>) -> bool {
    exists|n: nat|
        1 <= n <= MAX_ATTEMPTS && r == numbered_name(nominal, n) && probe_says(probe, r, false)
            && forall|m: nat|
            1 <= m < n ==> probe_says(probe, #[trigger] numbered_name(nominal, m), true)
}

/// `probe` said that every numbered name for `nominal`, up to the limit, is taken.
pub open spec fn all_names_taken<F: Fn(&str) -> bool>(probe: F, nominal: Seq<char>) -> bool {
    forall|m: nat|
        1 <= m <= MAX_ATTEMPTS ==> probe_says(probe, #[trigger] numbered_name(nominal, m), true)
}

/// Find `name (1).ext`, `name (2).ext`, ... until `probe` says one is free.
///
/// The bound stops a pathological directory from hanging the app; when
/// every candidate up to it is taken there is no name to give, and nothing
/// (never the existing file) is returned.
pub fn next_free_name<F: Fn(&str) -> bool>(nominal: &str, probe: F) -> (r: Option<String>)
    requires
        forall|s: &str| call_requires(probe, (s,)),
    ensures
        r matches Some(p) ==> free_name(probe, nominal@, p@),
        r is None ==> all_names_taken(probe, nominal@),
{
    let p = chars_of(nominal);
    let prefix = stripped_dir_prefix(p.as_slice());
    let stem = chars_of_stem(p.as_slice());
    let ext = match path_extension(nominal) {
        Some(e) => e,
        None => Vec::new(),
    };
    let mut n: u32 = 1;
    while n <= MAX_ATTEMPTS
        invariant
            1 <= n <= MAX_ATTEMPTS + 1,
            p@ == nominal@,
            prefix@ == dir_prefix(nominal@),
            stem@ == match file_stem(nominal@) {
                Some(s) => s,
                None => Seq::empty(),
            },
            ext@ == match extension(nominal@) {
                Some(e) => e,
                None => Seq::empty(),
            },
            forall|s: &str| call_requires(probe, (s,)),
            forall|m: nat|
                1 <= m < n ==> probe_says(probe, #[trigger] numbered_name(nominal@, m), true),
        decreases MAX_ATTEMPTS + 1 - n,
    {
        let mut candidate = String::new();
        push_chars(&mut candidate, prefix.as_slice());
        push_chars(&mut candidate, stem.as_slice());
        push_char(&mut candidate, ' ');
        push_char(&mut candidate, '(');
        push_decimal(&mut candidate, n as u64);
        push_char(&mut candidate, ')');
        if ext.len() > 0 {
            push_char(&mut candidate, '.');
            push_chars(&mut candidate, ext.as_slice());
        }
        assert(candidate@ =~= numbered_name(nominal@, n as nat));
        let c: &str = candidate.as_str();
        let taken = probe(c);
        if !taken {
            assert(probe_says(probe, candidate@, false));
            return Some(candidate);
        }
        assert(probe_says(probe, numbered_name(nominal@, n as nat), true));
        n += 1;
    }
    None
}

/// Apply the overwrite policy to a candidate output path.
pub fn resolve_collision<F: Fn(&str) -> bool>(nominal: &str, policy: OverwritePolicy, probe: F) -> (r:
    Collision)
    requires
        forall|s: &str| call_requires(probe, (s,)),
    ensures
        ({
            ||| probe_says(probe, nominal@, false) && (r matches Collision::Proceed(p) && p@
                == nominal@)
            ||| probe_says(probe, nominal@, true) && match policy {
                OverwritePolicy::Overwrite => (r matches Collision::Proceed(p) && p@ == nominal@),
                OverwritePolicy::Skip => r is Skip,
                OverwritePolicy::Rename => {
                    ||| (r matches Collision::Proceed(p) && free_name(probe, nominal@, p@))
                    ||| r is NoFreeName && all_names_taken(probe, nominal@)
                },
            }
        }),
{
    let present = probe(nominal);
    if !present {
        return Collision::Proceed(nominal.to_owned());
    }
    match policy {
        OverwritePolicy::Overwrite => Collision::Proceed(nominal.to_owned()),
        OverwritePolicy::Skip => Collision::Skip,
        OverwritePolicy::Rename => match next_free_name(nominal, probe) {
            Some(p) => Collision::Proceed(p),
            None => Collision::NoFreeName,
        },
    }
}

/// The environment variable that caps a child's libvips thread pool.
///
/// Nothing for 0, meaning "leave libvips to its own default", so the
/// variable is not set at all rather than set to something meaningless.
pub fn concurrency_env(vips_concurrency: usize) -> (r: Option<(&'static str, String)>)
    ensures
        vips_concurrency == 0 <==> r is None,
        r matches Some(pair) ==> pair.0@ == "VIPS_CONCURRENCY"@ && pair.1@ == decimal(
            vips_concurrency as nat,
        ),
{
    if vips_concurrency == 0 {
        None
    } else {
        let mut value = String::new();
        push_decimal(&mut value, vips_concurrency as u64);
        assert(value@ =~= decimal(vips_concurrency as nat));
        Some(("VIPS_CONCURRENCY", value))
    }
}

/// A line with a leading libvips class name (`VipsForeignLoad: ...`)
/// removed. Only a prefix that looks like a class name counts: no spaces,
/// an upper-case first letter and more than three bytes, so a message such
/// as `could not open C:\...` keeps its drive letter.
pub open spec fn without_class_prefix(line: Seq<char>) -> Seq<char> {
    let k = find_from(line, seq![':', ' '], 0);
    if k < 0 {
        line
    } else {
        let prefix = line.subrange(0, k);
        let bytes = encode_utf8(prefix).len() as usize;
        if !prefix.contains(' ') && prefix.len() > 0 && is_upper(prefix[0]) && bytes > 3 && bytes
            != 2 {
            trim(line.subrange(k + 2, line.len() as int))
        } else {
            line
        }
    }
}

/// Remove a leading `SomeVipsClass: ` prefix, if present.
pub fn strip_vips_class_prefix(line: &str) -> (r: String)
    ensures
        r@ == without_class_prefix(line@),
{
    let v = chars_of(line);
    let sep = vec![':', ' '];
    let found = find_chars(v.as_slice(), sep.as_slice());
    assert(sep@ =~= seq![':', ' ']);
    match found {
        None => line.to_owned(),
        Some(k) => {
            let n = v.len();
            let prefix = sub_chars(v.as_slice(), 0, k);
            let prefix_text = string_of(prefix.as_slice());
            let bytes = prefix_text.as_str().len();
            if !contains_char(prefix.as_slice(), ' ') && prefix.len() > 0 && is_uppercase(prefix[0])
                && bytes > 3 && bytes != 2 {
                let rest = sub_chars(v.as_slice(), k + 2, n);
                let (a, b) = trim_bounds(rest.as_slice());
                let t = sub_chars(rest.as_slice(), a, b);
                string_of(t.as_slice())
            } else {
                line.to_owned()
            }
        },
    }
}

/// What libvips' stderr says, cleaned up for a user: the last line that is
/// not blank, without its class-name prefix; or, when it said nothing, the
/// exit code, or that it was terminated.
pub open spec fn cleaned_stderr(text: Seq<char>, exit_code: Option<i32>) -> Seq<char> {
    match last_nonblank_line(text) {
        Some(line) => without_class_prefix(line),
        None => match exit_code {
            Some(code) => "vips exited with code "@ + signed_decimal(code as int)
                + " and no message"@,
            None => "vips was terminated before it finished"@,
        },
    }
}

/// Turn libvips' stderr into something worth showing a user.
pub fn clean_stderr(stderr: &[u8], exit_code: Option<i32>) -> (r: String)
    ensures
        r@ == cleaned_stderr(utf8_lossy(stderr@), exit_code),
{
    let text = lossy_text(stderr);
    let v = chars_of(text.as_str());
    match last_nonblank(v.as_slice()) {
        Some(line) => {
            let l = string_of(line.as_slice());
            strip_vips_class_prefix(l.as_str())
        },
        None => {
            let mut s = String::new();
            match exit_code {
                Some(code) => {
                    s.append("vips exited with code ");
                    push_signed_decimal(&mut s, code);
                    s.append(" and no message");
                },
                None => {
                    s.append("vips was terminated before it finished");
                },
            }
            assert(s@ =~= cleaned_stderr(utf8_lossy(stderr@), exit_code));
            s
        },
    }
}

/// The first step of a conversion.
#[derive(Debug, Clone, PartialEq, Eq)]
pub enum Prepared {
    /// Run vips with these arguments, writing to `output`.
    Run { output: String, args: VipsArgs },
    /// Nothing to run: the conversion already has its outcome.
    Finished(Outcome),
}

/// Decide what one conversion does before anything is spawned: stop when
/// `cancelled`, refuse an input that is not a file, apply the overwrite
/// policy to the output path (with `probe` telling whether a path exists), and build the
/// arguments for the path chosen. Unless the policy is to overwrite, vips is
/// only ever pointed at a path that `probe` said is free; when renaming
/// finds no free name the job fails with `NoFreeName`.
pub fn prepare<F: Fn(&str) -> bool>(
    settings: &ConversionSettings,
    input: &str,
    version: VipsVersion,
    cancelled: bool,
    input_is_file: bool,
    probe: F,
) -> (r: Result<Prepared, ConvertError>)
    requires
        forall|s: &str| call_requires(probe, (s,)),
    ensures
        cancelled ==> r matches Err(ConvertError::Cancelled),
        !cancelled && !input_is_file ==> (r matches Err(ConvertError::InputMissing { input: i })
            && i@ == input@),
        !cancelled && input_is_file ==> {
            let nominal = output_path(*settings, input@);
            ||| probe_says(probe, nominal, true) && settings.overwrite == OverwritePolicy::Skip
                && (r matches Ok(Prepared::Finished(Outcome::Skipped { output })) && output@
                == nominal)
            ||| probe_says(probe, nominal, true) && settings.overwrite == OverwritePolicy::Rename
                && all_names_taken(probe, nominal) && (r matches Err(
                ConvertError::NoFreeName { output },
            ) && output@ == nominal)
            ||| r matches Ok(Prepared::Run { output, args }) && args@ == build_spec(
                *settings,
                input@,
                output@,
                version,
            ) && {
                ||| probe_says(probe, nominal, false) && output@ == nominal
                ||| probe_says(probe, nominal, true) && settings.overwrite
                    == OverwritePolicy::Overwrite && output@ == nominal
                ||| probe_says(probe, nominal, true) && settings.overwrite
                    == OverwritePolicy::Rename && free_name(probe, nominal, output@)
            }
        },
        settings.overwrite != OverwritePolicy::Overwrite ==> (r matches Ok(
            Prepared::Run { output, args },
        ) ==> probe_says(probe, output@, false)),
{
    if cancelled {
        return Err(ConvertError::Cancelled);
    }
    if !input_is_file {
        return Err(ConvertError::InputMissing { input: input.to_owned() });
    }
    let nominal = settings.output_path_for(input);
    match resolve_collision(nominal.as_str(), settings.overwrite, probe) {
        Collision::Skip => Ok(Prepared::Finished(Outcome::Skipped { output: nominal })),
        Collision::NoFreeName => Err(ConvertError::NoFreeName { output: nominal }),
        Collision::Proceed(output) => {
            let args = build(settings, input, output.as_str(), version);
            Ok(Prepared::Run { output, args })
        },
    }
}

/// What the loop that watches a running vips child does next.
#[derive(Debug, Clone, PartialEq, Eq)]
pub enum PollStep {
    /// A cancel was asked for: kill the child, delete `remove` (the partial
    /// output, so a cancelled batch leaves no truncated images that look
    /// like successes) and end the job as `ConvertError::Cancelled`.
    Abandon { remove: String },
    /// The child has exited: collect its status and stderr, then `finish`.
    Collect,
    /// Still running: wait a moment and look again.
    Wait,
}

/// One turn of the watch loop for a child writing to `output`: a cancel
/// request wins over everything, so a cancel stops promptly even when the
/// child has just exited; otherwise an exited child is collected.
pub fn poll_step(output: &str, cancelled: bool, exited: bool) -> (s: PollStep)
    ensures
        cancelled <==> (s matches PollStep::Abandon { remove } && remove@ == output@),
        !cancelled && exited <==> s is Collect,
        !cancelled && !exited <==> s is Wait,
{
    if cancelled {
        PollStep::Abandon { remove: output.to_owned() }
    } else if exited {
        PollStep::Collect
    } else {
        PollStep::Wait
    }
}

/// The command as shown in an error report: the executable, a space, and
/// the arguments as displayed.
pub open spec fn command_text(exe: Seq<char>, args: Seq<Seq<char>>) -> Seq<char> {
    exe.push(' ') + join_with(args.map_values(|a: Seq<char>| display_arg(a)), ' ')
}

/// What a finished vips run means: a failure status gives `VipsFailed` with
/// the cleaned stderr and the command; success without a file on disk
/// (`written` is its size, when there is one) gives `OutputMissing`.
pub fn finish(
    exe: &str,
    args: &VipsArgs,
    output: String,
    success: bool,
    stderr: &[u8],
    exit_code: Option<i32>,
    written: Option<u64>,
) -> (r: Result<Outcome, ConvertError>)
    ensures
        !success ==> (r matches Err(ConvertError::VipsFailed { message, command }) && message@
            == cleaned_stderr(utf8_lossy(stderr@), exit_code) && command@ == command_text(
            exe@,
            args@,
        )),
        success && written is None ==> (r matches Err(ConvertError::OutputMissing { output: o })
            && o@ == output@),
        success && written is Some ==> (r matches Ok(Outcome::Written { output: o, bytes }) && o@
            == output@ && bytes == written.unwrap()),
{
    if !success {
        let message = clean_stderr(stderr, exit_code);
        let mut command = String::new();
        command.append(exe);
        push_char(&mut command, ' ');
        let shown = args.to_display_string();
        command.append(shown.as_str());
        assert(command@ =~= command_text(exe@, args@));
        return Err(ConvertError::VipsFailed { message, command });
    }
    match written {
        None => Err(ConvertError::OutputMissing { output }),
        Some(bytes) => Ok(Outcome::Written { output, bytes }),
    }
}

} // verus!
