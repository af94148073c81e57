use vips_gui::settings::ConversionSettings;
use vips_gui::settings::OutputFormat;
use vips_gui::vips::preview::{
    failure, is_png, last_line, parse_dimension, thumbnail_args, worth_reporting, Debouncer,
    PreviewError, PreviewScheduler, PreviewStep, Request, RequestSlot, Taken,
};

const MS: u64 = 1_000_000;

fn request(generation: u64, name: &str) -> Request {
    Request { generation, input: name.to_owned(), settings: ConversionSettings::default() }
}

#[test]
fn png_signature_detection_rejects_non_png_data() {
    assert!(is_png(&[0x89, b'P', b'N', b'G', 0x0d, 0x0a, 0x1a, 0x0a, 0x00]));
    assert!(!is_png(b""));
    assert!(!is_png(b"not a png at all"));
    assert!(!is_png(&[0x89, b'P', b'N']));
    assert!(!is_png(&[0xff, 0xd8, 0xff, 0xe0]));
}

#[test]
fn the_newest_request_replaces_an_unstarted_one() {
    let mut slot = RequestSlot::new();

    assert!(!slot.put(request(1, "a.png")), "the first request displaces nothing");
    assert!(slot.put(request(2, "b.png")), "the second should displace the first");
    assert!(slot.put(request(3, "c.png")));

    match slot.take() {
        Taken::Request(taken) => {
            assert_eq!(taken.generation, 3);
            assert_eq!(taken.input, "c.png");
        }
        other => panic!("a request should be waiting, got {other:?}"),
    }
}

#[test]
fn taking_from_the_slot_leaves_it_empty() {
    let mut slot = RequestSlot::new();
    slot.put(request(1, "a.png"));
    match slot.take() {
        Taken::Request(r) => assert_eq!(r.generation, 1),
        other => panic!("expected a request, got {other:?}"),
    }
    assert!(matches!(slot.take(), Taken::Empty), "nothing left to take");

    slot.shutdown();
    assert!(matches!(slot.take(), Taken::Shutdown));
}

#[test]
fn shutdown_discards_a_pending_request() {
    let mut slot = RequestSlot::new();
    slot.put(request(1, "a.png"));
    slot.shutdown();
    assert!(
        matches!(slot.take(), Taken::Shutdown),
        "a pending request should not be handed out after shutdown"
    );
}

#[test]
fn debouncer_waits_for_the_delay_before_firing() {
    let mut d = Debouncer::new(300 * MS);
    let t0 = 5_000 * MS;

    assert!(!d.is_pending());
    assert!(!d.take_if_ready(t0), "nothing pending, nothing to fire");

    d.touch(t0);
    assert!(d.is_pending());
    assert!(!d.take_if_ready(t0 + 299 * MS), "should not fire one millisecond early");
    assert!(d.take_if_ready(t0 + 300 * MS), "should fire once the delay has elapsed");
    assert!(!d.is_pending(), "firing consumes the pending change");
    assert!(!d.take_if_ready(t0 + 10_000 * MS), "should not fire twice for one change");
}

#[test]
fn each_change_restarts_the_debounce_timer() {
    let mut d = Debouncer::new(300 * MS);
    let t0 = 5_000 * MS;

    d.touch(t0);
    for step in 1..=5u64 {
        let now = t0 + 50 * MS * step;
        assert!(!d.take_if_ready(now), "should not fire while changes keep arriving (step {step})");
        d.touch(now);
    }

    let last_touch = t0 + 250 * MS;
    assert!(!d.take_if_ready(last_touch + 299 * MS));
    assert!(d.take_if_ready(last_touch + 300 * MS));
}

#[test]
fn debouncer_reports_time_remaining_for_scheduling_a_repaint() {
    let mut d = Debouncer::new(300 * MS);
    let t0 = 5_000 * MS;

    assert_eq!(d.time_remaining(t0), None, "nothing pending");

    d.touch(t0);
    assert_eq!(d.time_remaining(t0), Some(300 * MS), "the full delay remains immediately after a change");
    assert_eq!(d.time_remaining(t0 + 100 * MS), Some(200 * MS));
    assert_eq!(d.time_remaining(t0 + 5_000 * MS), Some(0));
}

#[test]
fn clearing_the_debouncer_cancels_the_pending_change() {
    let mut d = Debouncer::new(100 * MS);
    let t0 = 5_000 * MS;
    d.touch(t0);
    d.clear();
    assert!(!d.is_pending());
    assert!(!d.take_if_ready(t0 + 1_000 * MS));
}

#[test]
fn last_line_picks_the_most_specific_error() {
    assert_eq!(
        last_line("vips: error\nVipsForeignSave: bad bitdepth\n"),
        Some("VipsForeignSave: bad bitdepth".to_owned())
    );
    assert_eq!(last_line(""), None);
    assert_eq!(last_line("   \n\n  "), None);
    assert_eq!(last_line("only one"), Some("only one".to_owned()));
}

#[test]
fn a_failed_preview_says_what_vips_said() {
    assert_eq!(failure("x\nVipsForeignSave: bad\n"), PreviewError::VipsFailed { message: "VipsForeignSave: bad".to_owned() });
    assert_eq!(failure("  \n"), PreviewError::VipsFailed { message: "vips failed".to_owned() });
    assert_eq!(PreviewError::NoOutput.message(), "vips produced no image data");
    assert_eq!(PreviewError::SpawnFailed { reason: "gone".to_owned() }.message(), "could not start vips: gone");
}

#[test]
fn thumbnails_fit_the_preview_box_and_never_enlarge() {
    assert_eq!(
        thumbnail_args("C:\\a b.jpg", ".png"),
        vec!["thumbnail", "C:\\a b.jpg", ".png", "720", "--height", "720", "--size", "down"]
    );
}

#[test]
fn dimensions_are_read_from_vipsheader_output() {
    assert_eq!(parse_dimension(b"1920\n"), Some(1920));
    assert_eq!(parse_dimension(b"  64  "), Some(64));
    assert_eq!(parse_dimension(b"width?"), None);
    assert_eq!(parse_dimension(b""), None);
}

#[test]
fn superseded_results_are_not_reported() {
    assert!(!worth_reporting(&Err(PreviewError::Superseded)));
    assert!(worth_reporting(&Err(PreviewError::NoOutput)));
}

#[test]
fn a_preview_is_rendered_once_the_selection_settles() {
    let mut s = PreviewScheduler::new(300 * MS);
    let settings = ConversionSettings::default();
    let t0 = 5_000 * MS;

    let (step, changed) = s.step(Some("/p/a.png"), &settings, false, t0);
    assert!(changed, "a new selection is a change");
    assert!(matches!(step, PreviewStep::WakeAfter(t) if t == 300 * MS));

    let (step, changed) = s.step(Some("/p/a.png"), &settings, false, t0 + 100 * MS);
    assert!(!changed);
    assert!(matches!(step, PreviewStep::WakeAfter(t) if t == 200 * MS));

    match s.step(Some("/p/a.png"), &settings, false, t0 + 300 * MS) {
        (PreviewStep::Render { input, settings: rendered }, false) => {
            assert_eq!(input, "/p/a.png");
            assert_eq!(rendered, settings);
        }
        other => panic!("expected a render, got {other:?}"),
    }
    assert!(matches!(s.step(Some("/p/a.png"), &settings, false, t0 + 900 * MS), (PreviewStep::Wait, false)));
}

#[test]
fn a_settings_change_restarts_the_wait_and_a_batch_holds_it() {
    let mut s = PreviewScheduler::new(300 * MS);
    let mut settings = ConversionSettings::default();
    let t0 = 5_000 * MS;
    s.step(Some("/p/a.png"), &settings, false, t0);

    settings.format = OutputFormat::Avif;
    let (step, changed) = s.step(Some("/p/a.png"), &settings, true, t0 + 250 * MS);
    assert!(changed, "new settings are a change");
    assert!(matches!(step, PreviewStep::Wait), "nothing renders while a batch runs");

    let (step, _) = s.step(Some("/p/a.png"), &settings, false, t0 + 500 * MS);
    assert!(matches!(step, PreviewStep::WakeAfter(t) if t == 50 * MS));

    let (step, changed) = s.step(None, &settings, false, t0 + 600 * MS);
    assert!(matches!(step, PreviewStep::Forget));
    assert!(!changed);
    assert!(s.wanted.is_none());
    assert!(!s.debounce.is_pending());
}

#[test]
fn settings_compare_by_every_choice() {
    let a = ConversionSettings::default();
    let mut b = a.duplicate();
    assert!(a.same_as(&b));
    b.destination = vips_gui::settings::OutputDestination::Directory("/out".to_owned());
    assert!(!a.same_as(&b));
    let c = b.duplicate();
    assert!(b.same_as(&c));
    assert_eq!(b, c);
}
