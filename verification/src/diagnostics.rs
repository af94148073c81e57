//! The `--check` report: what this build found, and what to do if it found
//! nothing.
//!
//! "The app says libvips is missing but it is definitely installed" is the
//! one support question a program like this always gets; a text-mode answer
//! makes it diagnosable over a chat message.

use vstd::prelude::*;
use crate::settings::OutputFormat;
use crate::text::push_char;
use crate::ui::settings_panel::{has_saver, saver_available};
use crate::vips::discovery::{version_text, Capabilities, DiscoveryError, VipsInstall, ENV_OVERRIDE};
use crate::vips::{min_version, min_version_spec, DOWNLOAD_URL};

verus! {

/// `s` padded on the right with spaces to `width` characters.
pub open spec fn padded(s: Seq<char>, width: nat) -> Seq<char> {
    if s.len() >= width {
        s
    } else {
        s + Seq::new((width - s.len()) as nat, |i: int| ' ')
    }
}

fn push_padded(out: &mut String, s: &str, width: usize)
    ensures
        final(out)@ == old(out)@ + padded(s@, width as nat),
{
    out.append(s);
    let n = s.unicode_len();
    let mut k = n;
    while k < width
        invariant
            n == s@.len(),
            n <= k <= width || (k == n && n >= width),
            out@ == old(out)@ + s@ + Seq::new((k - n) as nat, |i: int| ' '),
        decreases width - k,
    {
        push_char(out, ' ');
        assert(Seq::new((k + 1 - n) as nat, |i: int| ' ') =~= Seq::new((k - n) as nat, |i: int| ' ').push(' '));
        k += 1;
    }
    assert(out@ =~= old(out)@ + padded(s@, width as nat));
}

/// One row of the format table: availability, the format and its saver.
pub open spec fn format_row(capabilities: Capabilities, format: OutputFormat) -> Seq<char> {
    "  "@ + padded(if saver_available(capabilities, format) { "yes"@ } else { "no"@ }, 5) + " "@
        + padded(format.label_text(), 10) + " ("@ + format.saver_text() + ")\n"@
}

/// The lines naming the installation: version, executable, how it was found.
pub open spec fn install_lines(install: VipsInstall) -> Seq<char> {
    "libvips:     "@ + version_text(install.version) + " (minimum required: "@ + version_text(
        min_version_spec(),
    ) + ")\n"@ + "executable:  "@ + install.exe@ + "\n"@ + "found via:   "@
        + install.source.describe_text() + "\n"@
}

/// The table of output formats.
pub open spec fn format_table(c: Capabilities) -> Seq<char> {
    "Output formats:\n"@ + format_row(c, OutputFormat::Jpeg) + format_row(c, OutputFormat::Png)
        + format_row(c, OutputFormat::Webp) + format_row(c, OutputFormat::Avif)
}

/// How previews are produced.
pub open spec fn previews_line(stdout_previews: bool) -> Seq<char> {
    "Previews:    "@ + (if stdout_previews {
        "streaming (this libvips can write to stdout)"@
    } else {
        "via temporary files (this libvips will not write to stdout)"@
    }) + "\n"@
}

/// A pointer to a fuller build, when some format is missing.
pub open spec fn missing_formats_note(c: Capabilities) -> Seq<char> {
    if c.jpeg && c.png && c.webp && c.avif {
        Seq::empty()
    } else {
        "\n"@ + "Note: some formats are unavailable in this libvips build.\n"@
            + "A build with more format support is available at "@ + DOWNLOAD_URL@ + "\n"@
    }
}

/// The report for a usable installation.
pub open spec fn found_report(install: VipsInstall, stdout_previews: bool) -> Seq<char> {
    install_lines(install) + "\n"@ + format_table(install.capabilities) + "\n"@ + previews_line(
        stdout_previews,
    ) + missing_formats_note(install.capabilities)
}

/// The report when no usable installation was found, with the way to fix it.
pub open spec fn missing_report(error: DiscoveryError) -> Seq<char> {
    "libvips:     NOT USABLE\n"@ + "\n"@ + error.message_text() + "\n"@ + "\n"@
        + "To fix this on Windows:\n"@ + "  1. Download vips-dev-w64-web-<version>.zip from\n"@
        + "     "@ + DOWNLOAD_URL@ + "\n"@ + "  2. Unzip it somewhere permanent.\n"@
        + "  3. Add the vips-<version>\\bin folder to your PATH.\n"@ + "\n"@
        + "Alternatively set "@ + ENV_OVERRIDE@ + " to the full path of vips.exe.\n"@
}

/// The whole report, headed by this program's version, with the exit code:
/// 0 when a usable libvips was found and 1 when it was not, so the check is
/// scriptable.
pub open spec fn check_report_spec(
    app_version: Seq<char>,
    found: Result<VipsInstall, DiscoveryError>,
    stdout_previews: bool,
) -> (Seq<char>, i32) {
    let head = "vips-gui "@ + app_version + "\n"@ + "\n"@;
    match found {
        Ok(install) => (head + found_report(install, stdout_previews), 0),
        Err(error) => (head + missing_report(error), 1),
    }
}

fn push_format_row(out: &mut String, capabilities: Capabilities, format: OutputFormat)
    ensures
        final(out)@ == old(out)@ + format_row(capabilities, format),
{
    out.append("  ");
    push_padded(out, if has_saver(capabilities, format) { "yes" } else { "no" }, 5);
    out.append(" ");
    push_padded(out, format.label(), 10);
    out.append(" (");
    out.append(format.saver_name());
    out.append(")\n");
}

fn push_install_lines(s: &mut String, install: &VipsInstall)
    ensures
        final(s)@ == old(s)@ + install_lines(*install),
{
    s.append("libvips:     ");
    s.append(install.version.to_text().as_str());
    s.append(" (minimum required: ");
    s.append(min_version().to_text().as_str());
    s.append(")\n");
    s.append("executable:  ");
    s.append(install.exe.as_str());
    s.append("\n");
    s.append("found via:   ");
    s.append(install.source.describe());
    s.append("\n");
    assert(s@ =~= old(s)@ + install_lines(*install));
}

fn push_format_table(s: &mut String, c: Capabilities)
    ensures
        final(s)@ == old(s)@ + format_table(c),
{
    s.append("Output formats:\n");
    push_format_row(s, c, OutputFormat::Jpeg);
    push_format_row(s, c, OutputFormat::Png);
    push_format_row(s, c, OutputFormat::Webp);
    push_format_row(s, c, OutputFormat::Avif);
    assert(s@ =~= old(s)@ + format_table(c));
}

fn push_previews_line(s: &mut String, stdout_previews: bool)
    ensures
        final(s)@ == old(s)@ + previews_line(stdout_previews),
{
    s.append("Previews:    ");
    if stdout_previews {
        s.append("streaming (this libvips can write to stdout)");
    } else {
        s.append("via temporary files (this libvips will not write to stdout)");
    }
    s.append("\n");
    assert(s@ =~= old(s)@ + previews_line(stdout_previews));
}

fn push_missing_formats_note(s: &mut String, c: Capabilities)
    ensures
        final(s)@ == old(s)@ + missing_formats_note(c),
{
    if !c.all_present() {
        s.append("\n");
        s.append("Note: some formats are unavailable in this libvips build.\n");
        s.append("A build with more format support is available at ");
        s.append(DOWNLOAD_URL);
        s.append("\n");
    }
    assert(s@ =~= old(s)@ + missing_formats_note(c));
}

fn push_found_report(s: &mut String, install: &VipsInstall, stdout_previews: bool)
    ensures
        final(s)@ == old(s)@ + found_report(*install, stdout_previews),
{
    let c = install.capabilities;
    let ghost s0 = s@;
    push_install_lines(s, install);
    s.append("\n");
    let ghost s1 = s@;
    push_format_table(s, c);
    s.append("\n");
    let ghost s2 = s@;
    push_previews_line(s, stdout_previews);
    let ghost s3 = s@;
    push_missing_formats_note(s, c);
    assert(s1 =~= s0 + (install_lines(*install) + "\n"@));
    assert(s2 =~= s1 + (format_table(c) + "\n"@));
    assert(s@ =~= s0 + found_report(*install, stdout_previews));
}

fn push_missing_report(s: &mut String, error: &DiscoveryError)
    ensures
        final(s)@ == old(s)@ + missing_report(*error),
{
    s.append("libvips:     NOT USABLE\n");
    s.append("\n");
    s.append(error.message().as_str());
    s.append("\n");
    s.append("\n");
    s.append("To fix this on Windows:\n");
    s.append("  1. Download vips-dev-w64-web-<version>.zip from\n");
    s.append("     ");
    s.append(DOWNLOAD_URL);
    s.append("\n");
    s.append("  2. Unzip it somewhere permanent.\n");
    s.append("  3. Add the vips-<version>\\bin folder to your PATH.\n");
    s.append("\n");
    s.append("Alternatively set ");
    s.append(ENV_OVERRIDE);
    s.append(" to the full path of vips.exe.\n");
    assert(s@ =~= old(s)@ + missing_report(*error));
}

/// Describe the libvips installation that discovery `found` (and whether
/// it streams previews through standard output), returning the text to
/// print and the exit code.
pub fn check_report(
    app_version: &str,
    found: &Result<VipsInstall, DiscoveryError>,
    stdout_previews: bool,
) -> (r: (String, i32))
    ensures
        r.0@ == check_report_spec(app_version@, *found, stdout_previews).0,
        r.1 == check_report_spec(app_version@, *found, stdout_previews).1,
{
    let mut s = String::new();
    s.append("vips-gui ");
    s.append(app_version);
    s.append("\n");
    s.append("\n");
    let ghost head = s@;
    assert(head =~= "vips-gui "@ + app_version@ + "\n"@ + "\n"@);
    match found {
        Ok(install) => {
            push_found_report(&mut s, install, stdout_previews);
            (s, 0)
        },
        Err(error) => {
            push_missing_report(&mut s, error);
            (s, 1)
        },
    }
}

} // verus!
