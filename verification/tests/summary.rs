use vips_gui::job::Tally;
use vips_gui::settings::OutputFormat;
use vips_gui::summary::{
    batch_notice, convert_blocked_reason, describe_addition, format_bytes, format_switch_notice,
    progress_text, tally_line,
};
use vips_gui::vips::discovery::Capabilities;

#[test]
fn byte_formatting_picks_readable_units() {
    assert_eq!(format_bytes(0), "0 B");
    assert_eq!(format_bytes(512), "512 B");
    assert_eq!(format_bytes(1024), "1 kB");
    assert_eq!(format_bytes(2048), "2 kB");
    assert_eq!(format_bytes(1024 * 1024), "1.0 MB");
    assert_eq!(format_bytes(3 * 1024 * 1024 / 2), "1.5 MB");
}

#[test]
fn byte_formatting_rounds_as_float_formatting_does() {
    let samples: Vec<u64> = vec![
        1023, 1535, 1536, 2560, 1048575, 1048576 + 52428, 1048576 + 52429, 5 * 1048576 / 4,
        123_456_789, 9_876_543_210, 1 << 40, (1 << 52) + 7,
    ];
    for bytes in samples {
        let b = bytes as f64;
        let expected = if b >= 1024.0 * 1024.0 {
            format!("{:.1} MB", b / (1024.0 * 1024.0))
        } else if b >= 1024.0 {
            format!("{:.0} kB", b / 1024.0)
        } else {
            format!("{bytes} B")
        };
        assert_eq!(format_bytes(bytes), expected, "{bytes}");
    }
}

#[test]
fn addition_wording_covers_the_nothing_happened_cases() {
    assert!(describe_addition(0, 1).contains("not an image"));
    assert!(describe_addition(0, 5).contains("no new images"));
    assert_eq!(describe_addition(1, 1), "Added 1 file.");
    assert_eq!(describe_addition(4, 9), "Added 4 files.");
}

#[test]
fn convert_is_blocked_only_for_a_format_the_build_cannot_write() {
    let caps = Capabilities { jpeg: true, png: true, webp: true, avif: false };
    assert_eq!(convert_blocked_reason(OutputFormat::Webp, caps), None);
    assert_eq!(
        convert_blocked_reason(OutputFormat::Avif, caps),
        Some("This libvips build cannot write AVIF: it has no heifsave.".to_owned())
    );
}

#[test]
fn progress_and_summary_lines_count_the_queue() {
    let t = Tally { queued: 2, running: 1, done: 3, skipped: 1, failed: 0 };
    assert_eq!(progress_text(t), "4 of 7 · 1 running");
    assert_eq!(tally_line(t), "7 files · 3 done · 1 skipped · 0 failed");
    assert_eq!(tally_line(Tally::default()), "No files queued");
    let one = Tally { queued: 1, ..Tally::default() };
    assert_eq!(tally_line(one), "1 file · 0 done · 0 skipped · 0 failed");
}

#[test]
fn the_end_of_a_batch_is_summarised() {
    let t = Tally { queued: 0, running: 0, done: 1, skipped: 2, failed: 1 };
    assert_eq!(
        batch_notice(false, "3.2", t, 2048),
        "Converted 1 file in 3.2s (2 kB written), 2 skipped, 1 failed."
    );
    let clean = Tally { done: 5, ..Tally::default() };
    assert_eq!(batch_notice(false, "0.4", clean, 0), "Converted 5 files in 0.4s (0 B written).");
    let stopped = Tally { queued: 4, done: 2, ..Tally::default() };
    assert_eq!(
        batch_notice(true, "1.0", stopped, 0),
        "Cancelled after 1.0s. 2 converted, 0 skipped, 0 failed, 4 still queued."
    );
}

#[test]
fn a_replaced_format_is_explained() {
    assert_eq!(
        format_switch_notice(OutputFormat::Avif, OutputFormat::Jpeg),
        "This libvips build cannot write AVIF (no heifsave), so JPEG is selected instead."
    );
}
