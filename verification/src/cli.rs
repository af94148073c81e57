//! The command line: a couple of flags, so a user can diagnose a libvips
//! problem without the GUI and a packaging test can confirm the binary
//! starts.

use vstd::prelude::*;
use crate::text::{chars_eq, chars_of};
use crate::vips::DOWNLOAD_URL;

verus! {

/// What the user asked for on the command line.
#[derive(Debug, Clone, Copy, PartialEq, Eq, Structural)]
pub enum Cli {
    Gui,
    Check,
    Version,
    Help,
}

/// What one argument asks for, if it is a flag this program knows.
pub open spec fn flag_meaning(arg: Seq<char>) -> Option<Cli> {
    if arg == "--check"@ || arg == "-c"@ {
        Some(Cli::Check)
    } else if arg == "--version"@ || arg == "-V"@ {
        Some(Cli::Version)
    } else if arg == "--help"@ || arg == "-h"@ || arg == "-?"@ {
        Some(Cli::Help)
    } else {
        None
    }
}

/// The first known flag decides; anything else is ignored (the GUI takes
/// no arguments, and refusing to start over a stray flag would be
/// unhelpful), and no flag at all opens the GUI.
pub open spec fn cli_spec(args: Seq<Seq<char>>) -> Cli
    decreases args.len(),
{
    if args.len() == 0 {
        Cli::Gui
    } else {
        match flag_meaning(args[0]) {
            Some(c) => c,
            None => cli_spec(args.subrange(1, args.len() as int)),
        }
    }
}

fn text_is(s: &str, lit: &str) -> (b: bool)
    ensures
        b == (s@ == lit@),
{
    let a = chars_of(s);
    let b = chars_of(lit);
    chars_eq(a.as_slice(), b.as_slice())
}

fn meaning(arg: &str) -> (r: Option<Cli>)
    ensures
        r == flag_meaning(arg@),
{
    if text_is(arg, "--check") || text_is(arg, "-c") {
        Some(Cli::Check)
    } else if text_is(arg, "--version") || text_is(arg, "-V") {
        Some(Cli::Version)
    } else if text_is(arg, "--help") || text_is(arg, "-h") || text_is(arg, "-?") {
        Some(Cli::Help)
    } else {
        None
    }
}

impl Cli {
    /// Read the arguments that follow the program name.
    pub fn from_args(args: &[String]) -> (c: Cli)
        ensures
            c == cli_spec(args@.map_values(|a: String| a@)),
    {
        let ghost all = args@.map_values(|a: String| a@);
        let mut i: usize = 0;
        assert(all.subrange(0, all.len() as int) =~= all);
        while i < args.len()
            invariant
                0 <= i <= args@.len(),
                all == args@.map_values(|a: String| a@),
                cli_spec(all) == cli_spec(all.subrange(i as int, all.len() as int)),
            decreases args@.len() - i,
        {
            let ghost rest = all.subrange(i as int, all.len() as int);
            assert(rest[0] == args@[i as int]@);
            match meaning(args[i].as_str()) {
                Some(c) => {
                    return c;
                },
                None => {},
            }
            assert(rest.subrange(1, rest.len() as int) =~= all.subrange(i + 1, all.len() as int));
            i += 1;
        }
        Cli::Gui
    }
}

/// The `--help` text for this program at `version`.
pub open spec fn usage_text(version: Seq<char>) -> Seq<char> {
    "vips-gui "@ + version + " - batch image conversion with libvips\n"@ + "\n"@
        + "Usage: vips-gui [OPTIONS]\n"@ + "\n"@ + "With no options, opens the graphical interface.\n"@
        + "\n"@ + "Options:\n"@ + "  -c, --check      Report the libvips installation and exit\n"@
        + "  -V, --version    Print the version and exit\n"@
        + "  -h, --help       Print this help and exit\n"@ + "\n"@
        + "libvips must be installed separately and on your PATH.\n"@ + "See "@ + DOWNLOAD_URL@
        + "\n"@
}

/// The `--help` text for this program at `version`.
pub fn usage(version: &str) -> (s: String)
    ensures
        s@ == usage_text(version@),
{
    let mut s = String::new();
    s.append("vips-gui ");
    s.append(version);
    s.append(" - batch image conversion with libvips\n");
    s.append("\n");
    s.append("Usage: vips-gui [OPTIONS]\n");
    s.append("\n");
    s.append("With no options, opens the graphical interface.\n");
    s.append("\n");
    s.append("Options:\n");
    s.append("  -c, --check      Report the libvips installation and exit\n");
    s.append("  -V, --version    Print the version and exit\n");
    s.append("  -h, --help       Print this help and exit\n");
    s.append("\n");
    s.append("libvips must be installed separately and on your PATH.\n");
    s.append("See ");
    s.append(DOWNLOAD_URL);
    s.append("\n");
    assert(s@ =~= usage_text(version@));
    s
}


/// Each flag means what the help text says, wherever the argument list goes
/// on after it: `--check` and `-c` ask for the report, `--version` and `-V`
/// for the version, `--help`, `-h` and `-?` for the help, and an argument
/// list with no flag at all opens the window.
pub proof fn lemma_flags_mean_what_the_help_says(rest: Seq<Seq<char>>)
    ensures
        cli_spec(seq!["--check"@] + rest) == Cli::Check,
        cli_spec(seq!["-c"@] + rest) == Cli::Check,
        cli_spec(seq!["--version"@] + rest) == Cli::Version,
        cli_spec(seq!["-V"@] + rest) == Cli::Version,
        cli_spec(seq!["--help"@] + rest) == Cli::Help,
        cli_spec(seq!["-h"@] + rest) == Cli::Help,
        cli_spec(seq!["-?"@] + rest) == Cli::Help,
        (forall|i: int| 0 <= i < rest.len() ==> flag_meaning(#[trigger] rest[i]) is None) ==> cli_spec(
            rest,
        ) == Cli::Gui,
    decreases rest.len(),
{
    reveal_strlit("--check");
    reveal_strlit("-c");
    reveal_strlit("--version");
    reveal_strlit("-V");
    reveal_strlit("--help");
    reveal_strlit("-h");
    reveal_strlit("-?");
    assert((seq!["--check"@] + rest)[0] == "--check"@);
    assert((seq!["-c"@] + rest)[0] == "-c"@);
    assert((seq!["--version"@] + rest)[0] == "--version"@);
    assert((seq!["-V"@] + rest)[0] == "-V"@);
    assert((seq!["--help"@] + rest)[0] == "--help"@);
    assert((seq!["-h"@] + rest)[0] == "-h"@);
    assert((seq!["-?"@] + rest)[0] == "-?"@);
    assert("--check"@.len() == 7 && "--version"@.len() == 9 && "--help"@.len() == 6);
    assert("-c"@.len() == 2 && "-V"@.len() == 2 && "-h"@.len() == 2 && "-?"@.len() == 2);
    assert("-c"@[1] == 'c' && "-V"@[1] == 'V' && "-h"@[1] == 'h' && "-?"@[1] == '?');
    assert("--check"@ != "-c"@);
    assert("--version"@ != "--check"@ && "--version"@ != "-c"@);
    assert("-V"@ != "--check"@ && "-V"@ != "-c"@ && "-V"@ != "--version"@);
    assert("--help"@ != "--check"@ && "--help"@ != "-c"@ && "--help"@ != "--version"@ && "--help"@ != "-V"@);
    assert("-h"@ != "--check"@ && "-h"@ != "-c"@ && "-h"@ != "--version"@ && "-h"@ != "-V"@);
    assert("-?"@ != "--check"@ && "-?"@ != "-c"@ && "-?"@ != "--version"@ && "-?"@ != "-V"@);
    if rest.len() > 0 && (forall|i: int| 0 <= i < rest.len() ==> flag_meaning(#[trigger] rest[i]) is None) {
        let tail = rest.subrange(1, rest.len() as int);
        assert(flag_meaning(rest[0]) is None);
        assert forall|i: int| 0 <= i < tail.len() implies flag_meaning(#[trigger] tail[i]) is None by {
            assert(tail[i] == rest[i + 1]);
        }
        lemma_flags_mean_what_the_help_says(tail);
    }
}

} // verus!
