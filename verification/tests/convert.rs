use std::cell::RefCell;
use std::collections::HashSet;

use vips_gui::settings::{ConversionSettings, OutputDestination, OutputFormat, OverwritePolicy};
use vips_gui::vips::command::VipsArgs;
use vips_gui::vips::convert::{
    clean_stderr, concurrency_env, finish, next_free_name, prepare, resolve_collision,
    strip_vips_class_prefix, poll_step, Collision, ConvertError, Outcome, PollStep, Prepared,
};
use vips_gui::vips::VipsVersion;

/// Files that exist, standing in for a directory on disk.
struct Disk(RefCell<HashSet<String>>);

impl Disk {
    fn with(paths: &[&str]) -> Self {
        Disk(RefCell::new(paths.iter().map(|p| p.to_string()).collect()))
    }
    fn has(&self, p: &str) -> bool {
        self.0.borrow().contains(p)
    }
    fn write(&self, p: &str) {
        self.0.borrow_mut().insert(p.to_owned());
    }
}

fn file_name(path: &str) -> &str {
    path.rsplit(['/', '\\']).next().unwrap()
}

fn modern() -> VipsVersion {
    VipsVersion { major: 8, minor: 18, patch: 0 }
}

#[test]
fn a_free_path_is_used_as_is() {
    let disk = Disk::with(&[]);
    match resolve_collision("/d/a.webp", OverwritePolicy::Rename, |p: &str| disk.has(p)) {
        Collision::Proceed(p) => assert_eq!(p, "/d/a.webp"),
        Collision::Skip => panic!("should not skip a free path"),
        Collision::NoFreeName => panic!("should not skip a free path"),
    }
}

#[test]
fn overwrite_policy_reuses_the_existing_path() {
    let disk = Disk::with(&["/d/a.webp"]);
    match resolve_collision("/d/a.webp", OverwritePolicy::Overwrite, |p: &str| disk.has(p)) {
        Collision::Proceed(p) => assert_eq!(p, "/d/a.webp"),
        Collision::Skip => panic!("overwrite should proceed"),
        Collision::NoFreeName => panic!("overwrite should proceed"),
    }
}

#[test]
fn skip_policy_reports_a_skip() {
    let disk = Disk::with(&["/d/a.webp"]);
    assert!(matches!(
        resolve_collision("/d/a.webp", OverwritePolicy::Skip, |p: &str| disk.has(p)),
        Collision::Skip
    ));
}

#[test]
fn rename_policy_walks_the_numbered_sequence() {
    let disk = Disk::with(&["/d/photo.webp"]);
    let target = "/d/photo.webp";

    let first = match resolve_collision(target, OverwritePolicy::Rename, |p: &str| disk.has(p)) {
        Collision::Proceed(p) => p,
        Collision::Skip => panic!("rename should proceed"),
        Collision::NoFreeName => panic!("rename should proceed"),
    };
    assert_eq!(file_name(&first), "photo (1).webp");

    disk.write(&first);
    let second = match resolve_collision(target, OverwritePolicy::Rename, |p: &str| disk.has(p)) {
        Collision::Proceed(p) => p,
        Collision::Skip => panic!("rename should proceed"),
        Collision::NoFreeName => panic!("rename should proceed"),
    };
    assert_eq!(file_name(&second), "photo (2).webp");

    disk.write(&second);
    let third = match resolve_collision(target, OverwritePolicy::Rename, |p: &str| disk.has(p)) {
        Collision::Proceed(p) => p,
        Collision::Skip => panic!("rename should proceed"),
        Collision::NoFreeName => panic!("rename should proceed"),
    };
    assert_eq!(file_name(&third), "photo (3).webp");
}

#[test]
fn rename_preserves_dots_inside_the_stem() {
    let disk = Disk::with(&["/d/my.photo.v2.webp"]);
    let renamed =
        next_free_name("/d/my.photo.v2.webp", |p: &str| disk.has(p)).expect("a free name");
    assert_eq!(file_name(&renamed), "my.photo.v2 (1).webp");
    assert_eq!(renamed, "/d/my.photo.v2 (1).webp");
}

#[test]
fn rename_handles_a_missing_extension() {
    let disk = Disk::with(&["/d/noext"]);
    let renamed = next_free_name("/d/noext", |p: &str| disk.has(p)).expect("a free name");
    assert_eq!(file_name(&renamed), "noext (1)");
}

#[test]
fn rename_gives_up_on_a_pathological_directory() {
    // Every candidate is taken: there is no name to give, and the existing
    // file is never offered in its place.
    assert_eq!(next_free_name("C:\\d\\x.jpg", |_: &str| true), None);
    assert_eq!(
        resolve_collision("C:\\d\\x.jpg", OverwritePolicy::Rename, |_: &str| true),
        Collision::NoFreeName
    );
}

#[test]
fn a_full_directory_fails_the_job_instead_of_overwriting() {
    let mut settings = ConversionSettings::default();
    settings.format = OutputFormat::Webp;
    settings.destination = OutputDestination::SameAsSource;
    assert_eq!(settings.overwrite, OverwritePolicy::Rename);

    let result = prepare(&settings, "/d/in.png", modern(), false, true, |_: &str| true);
    assert_eq!(result, Err(ConvertError::NoFreeName { output: "/d/in.webp".to_owned() }));
    assert_eq!(
        result.unwrap_err().message(),
        "no free name left next to /d/in.webp, so nothing was written"
    );
}

#[test]
fn the_last_numbered_name_is_still_used() {
    let last = next_free_name("/d/x.jpg", |p: &str| p != "/d/x (10000).jpg");
    assert_eq!(last, Some("/d/x (10000).jpg".to_owned()));
}

#[test]
fn a_missing_input_is_rejected_before_spawning_anything() {
    let result = prepare(
        &ConversionSettings::default(),
        "definitely-not-a-real-file.jpg",
        modern(),
        false,
        false,
        |_: &str| panic!("nothing should be probed"),
    );
    let err = result.expect_err("a missing input must fail");
    assert!(matches!(err, ConvertError::InputMissing { .. }), "{err:?}");
}

#[test]
fn skip_policy_short_circuits_before_spawning() {
    let disk = Disk::with(&["/d/in.png", "/d/in.webp"]);

    let mut settings = ConversionSettings::default();
    settings.format = OutputFormat::Webp;
    settings.overwrite = OverwritePolicy::Skip;
    settings.destination = OutputDestination::SameAsSource;

    let prepared = prepare(&settings, "/d/in.png", modern(), false, true, |p: &str| disk.has(p))
        .expect("skip is not an error");
    assert_eq!(
        prepared,
        Prepared::Finished(Outcome::Skipped { output: "/d/in.webp".to_owned() })
    );
}

#[test]
fn a_cancelled_conversion_never_starts() {
    let result = prepare(&ConversionSettings::default(), "/d/in.png", modern(), true, true, |_: &str| {
        false
    });
    assert_eq!(result, Err(ConvertError::Cancelled));
}

#[test]
fn a_same_format_conversion_cannot_destroy_its_own_input() {
    let disk = Disk::with(&["/work/original.jpg"]);
    let mut settings = ConversionSettings::default();
    settings.format = OutputFormat::Jpeg;
    settings.destination = OutputDestination::SameAsSource;
    assert_eq!(settings.overwrite, OverwritePolicy::Rename);

    let prepared = prepare(&settings, "/work/original.jpg", modern(), false, true, |p: &str| {
        disk.has(p)
    })
    .expect("conversion");
    match prepared {
        Prepared::Run { output, args } => {
            assert_ne!(output, "/work/original.jpg", "must not write over the input");
            assert_eq!(output, "/work/original (1).jpg");
            assert_eq!(args.as_strings()[2], "/work/original (1).jpg[Q=80,optimize-coding=true,interlace=true]");
        }
        other => panic!("expected a run, got {other:?}"),
    }
}

#[test]
fn concurrency_zero_means_do_not_set_the_variable() {
    assert_eq!(concurrency_env(0), None, "0 should leave libvips to its own default");
}

#[test]
fn concurrency_is_passed_as_the_vips_environment_variable() {
    assert_eq!(concurrency_env(1), Some(("VIPS_CONCURRENCY", "1".to_owned())));
    assert_eq!(concurrency_env(8), Some(("VIPS_CONCURRENCY", "8".to_owned())));
}

#[test]
fn stderr_cleaning_strips_the_libvips_class_prefix() {
    let raw = b"VipsForeignLoad: \"bad.jpg\" is not a known file format\n";
    let cleaned = clean_stderr(raw, Some(1));
    assert_eq!(cleaned, "\"bad.jpg\" is not a known file format");
}

#[test]
fn stderr_cleaning_keeps_the_most_specific_line() {
    let raw = b"vips: error calling saver\nVipsForeignSaveHeifFile: unsupported bitdepth\n";
    let cleaned = clean_stderr(raw, Some(1));
    assert_eq!(cleaned, "unsupported bitdepth");
}

#[test]
fn stderr_cleaning_leaves_messages_with_paths_intact() {
    let raw = b"could not open C:\\Users\\me\\a.jpg for reading\n";
    let cleaned = clean_stderr(raw, Some(1));
    assert_eq!(cleaned, "could not open C:\\Users\\me\\a.jpg for reading");
}

#[test]
fn stderr_cleaning_falls_back_when_vips_says_nothing() {
    assert_eq!(clean_stderr(b"", Some(9)), "vips exited with code 9 and no message");
    assert_eq!(clean_stderr(b"   \n\n", None), "vips was terminated before it finished");
    assert_eq!(clean_stderr(b"", Some(-3)), "vips exited with code -3 and no message");
}

#[test]
fn short_prefixes_are_not_class_names() {
    assert_eq!(strip_vips_class_prefix("C: drive full"), "C: drive full");
    assert_eq!(strip_vips_class_prefix("Abc: three bytes"), "Abc: three bytes");
    assert_eq!(strip_vips_class_prefix("lower: not a class"), "lower: not a class");
    assert_eq!(strip_vips_class_prefix("VipsImage:   padded  "), "padded");
}

#[test]
fn a_finished_run_is_judged_by_its_status_and_its_file() {
    let args = VipsArgs(vec!["copy".to_owned(), "in.jpg".to_owned(), "out 1.webp".to_owned()]);
    let failed = finish("vips.exe", &args, "out 1.webp".to_owned(), false, b"VipsForeignLoad: bad\n", Some(1), None);
    assert_eq!(
        failed,
        Err(ConvertError::VipsFailed {
            message: "bad".to_owned(),
            command: "vips.exe copy in.jpg \"out 1.webp\"".to_owned(),
        })
    );
    let missing = finish("vips.exe", &args, "out 1.webp".to_owned(), true, b"", Some(0), None);
    assert_eq!(missing, Err(ConvertError::OutputMissing { output: "out 1.webp".to_owned() }));
    let written = finish("vips.exe", &args, "out 1.webp".to_owned(), true, b"", Some(0), Some(42));
    assert_eq!(written, Ok(Outcome::Written { output: "out 1.webp".to_owned(), bytes: 42 }));
}

#[test]
fn error_messages_read_as_sentences() {
    assert_eq!(ConvertError::InputMissing { input: "a.jpg".to_owned() }.message(), "a.jpg no longer exists");
    assert_eq!(ConvertError::Cancelled.message(), "cancelled");
    assert_eq!(
        ConvertError::OutputDirUnusable { dir: "D:\\x".to_owned(), reason: "denied".to_owned() }.message(),
        "could not create the output folder D:\\x: denied"
    );
}

#[test]
fn a_cancel_abandons_the_child_and_removes_its_output() {
    assert_eq!(
        poll_step("/d/out.webp", true, false),
        PollStep::Abandon { remove: "/d/out.webp".to_owned() }
    );
    // A cancel wins even over a child that has just exited.
    assert_eq!(
        poll_step("/d/out.webp", true, true),
        PollStep::Abandon { remove: "/d/out.webp".to_owned() }
    );
    assert_eq!(poll_step("/d/out.webp", false, true), PollStep::Collect);
    assert_eq!(poll_step("/d/out.webp", false, false), PollStep::Wait);
}
