//! The settings panel: which formats the discovered libvips can offer.

use vstd::prelude::*;
use crate::settings::{OutputFormat, WebpOptions};
use crate::vips::discovery::Capabilities;

verus! {

/// The discovered libvips can write `format`.
pub open spec fn saver_available(capabilities: Capabilities, format: OutputFormat) -> bool {
    match format {
        OutputFormat::Jpeg => capabilities.jpeg,
        OutputFormat::Png => capabilities.png,
        OutputFormat::Webp => capabilities.webp,
        OutputFormat::Avif => capabilities.avif,
    }
}

/// Whether the discovered libvips can write this format.
pub fn has_saver(capabilities: Capabilities, format: OutputFormat) -> (b: bool)
    ensures
        b == saver_available(capabilities, format),
{
    match format {
        OutputFormat::Jpeg => capabilities.jpeg,
        OutputFormat::Png => capabilities.png,
        OutputFormat::Webp => capabilities.webp,
        OutputFormat::Avif => capabilities.avif,
    }
}

/// The hover text for a format's button: what it writes and with which
/// saver, or, when the build cannot write it, why the button is disabled.
pub open spec fn format_tip_text(format: OutputFormat, supported: bool) -> Seq<char> {
    if supported {
        "Writes ."@ + format.ext_text() + " using libvips "@ + format.saver_text()
    } else {
        "This libvips build has no "@ + format.saver_text() + ", so it cannot write "@
            + format.label_text() + "."@
    }
}

/// The hover text for a format's button.
pub fn format_tip(format: OutputFormat, supported: bool) -> (s: String)
    ensures
        s@ == format_tip_text(format, supported),
{
    let mut s = String::new();
    if supported {
        s.append("Writes .");
        s.append(format.extension());
        s.append(" using libvips ");
        s.append(format.saver_name());
    } else {
        s.append("This libvips build has no ");
        s.append(format.saver_name());
        s.append(", so it cannot write ");
        s.append(format.label());
        s.append(".");
    }
    s
}

/// What WebP's quality slider means: in pure lossless mode it trades
/// compression against speed rather than fidelity.
pub open spec fn webp_quality_hint_text(o: WebpOptions) -> Seq<char> {
    if o.lossless && !o.near_lossless {
        "Q: in lossless mode this trades compression against speed, not fidelity."@
    } else {
        "Q: visual quality. 80 is a good default for photographs."@
    }
}

/// What WebP's quality slider means for these options.
pub fn webp_quality_hint(o: &WebpOptions) -> (s: &'static str)
    ensures
        s@ == webp_quality_hint_text(*o),
{
    if o.lossless && !o.near_lossless {
        "Q: in lossless mode this trades compression against speed, not fidelity."
    } else {
        "Q: visual quality. 80 is a good default for photographs."
    }
}

} // verus!
