use vips_gui::job::{is_supported_input, FoundFile, JobQueue, JobStatus, Tally, INPUT_EXTENSIONS};

/// A file found on disk, keyed by its own path (as a resolved path would be).
fn found(path: &str) -> FoundFile {
    FoundFile { input: path.to_owned(), key: path.to_owned(), input_bytes: Some(1) }
}

/// What walking a folder yields: every file inside, images or not.
fn walk(paths: &[&str]) -> Vec<FoundFile> {
    paths.iter().map(|p| found(p)).collect()
}

fn queue_of(paths: &[&str]) -> JobQueue {
    let mut queue = JobQueue::default();
    queue.add_paths(walk(paths));
    queue
}

#[test]
fn recognises_image_extensions_case_insensitively() {
    assert!(is_supported_input("a.jpg"));
    assert!(is_supported_input("a.JPG"));
    assert!(is_supported_input("a.JpEg"));
    assert!(is_supported_input("a.webp"));
    assert!(is_supported_input("a.AVIF"));
    assert!(is_supported_input("a.tiff"));
}

#[test]
fn rejects_non_images() {
    assert!(!is_supported_input("notes.txt"));
    assert!(!is_supported_input("archive.zip"));
    assert!(!is_supported_input("no-extension"));
    assert!(!is_supported_input("video.mp4"));
    assert!(!is_supported_input("folder"));
}

#[test]
fn every_listed_extension_is_accepted() {
    for ext in INPUT_EXTENSIONS {
        assert!(is_supported_input(&format!("x.{ext}")), "{ext}");
        assert!(is_supported_input(&format!("x.{}", ext.to_uppercase())), "{ext}");
    }
    assert!(!is_supported_input("x.docx"));
}

#[test]
fn adding_a_folder_finds_images_recursively_and_filters_the_rest() {
    let mut queue = JobQueue::default();
    let added = queue.add_paths(walk(&[
        "/t/top.jpg",
        "/t/notes.txt",
        "/t/sub/inner.png",
        "/t/sub/deeper/deep.webp",
        "/t/sub/readme.md",
        "/t/sub/deeper/thumbs.db",
    ]));

    assert_eq!(added, 3, "should find exactly the three images");
    let mut names: Vec<String> = queue.jobs().iter().map(|j| j.display_name()).collect();
    names.sort();
    assert_eq!(names, vec!["deep.webp", "inner.png", "top.jpg"]);
}

#[test]
fn adding_the_same_folder_twice_adds_nothing_the_second_time() {
    let mut queue = JobQueue::default();
    assert_eq!(queue.add_paths(walk(&["/t/a.jpg", "/t/b.png"])), 2);
    assert_eq!(
        queue.add_paths(walk(&["/t/a.jpg", "/t/b.png"])),
        0,
        "the second drop should be a no-op"
    );
    assert_eq!(queue.len(), 2);
}

#[test]
fn adding_a_file_already_present_via_its_folder_is_deduplicated() {
    let mut queue = queue_of(&["/t/a.jpg"]);
    assert_eq!(queue.len(), 1);
    assert_eq!(queue.add_paths(walk(&["/t/a.jpg"])), 0);
    assert_eq!(queue.len(), 1);
}

#[test]
fn a_path_reached_via_a_dot_segment_is_recognised_as_the_same_file() {
    let mut queue = queue_of(&["/t/sub/a.jpg"]);
    // Same file, spelled with a detour; resolving it gives the same key.
    let indirect = FoundFile {
        input: "/t/sub/./a.jpg".to_owned(),
        key: "/t/sub/a.jpg".to_owned(),
        input_bytes: Some(1),
    };
    assert_eq!(queue.add_paths(vec![indirect]), 0, "the key should collapse the detour");
    assert_eq!(queue.len(), 1);
}

#[test]
fn dropping_a_mix_of_files_and_folders_works() {
    let mut queue = JobQueue::default();
    let added = queue.add_paths(walk(&["/t/loose.png", "/t/folder/a.jpg", "/t/folder/b.txt"]));
    assert_eq!(added, 2);
}

#[test]
fn a_nonexistent_path_is_ignored_rather_than_queued() {
    let mut queue = JobQueue::default();
    // Nothing on disk means nothing found.
    assert_eq!(queue.add_paths(Vec::new()), 0);
    assert!(queue.is_empty());
}

#[test]
fn the_first_added_job_becomes_selected() {
    let mut queue = JobQueue::default();
    assert_eq!(queue.selected, None);
    queue.add_paths(walk(&["/t/a.jpg", "/t/b.jpg"]));
    assert_eq!(queue.selected, Some(0), "something should be previewable");
}

#[test]
fn adding_more_files_does_not_move_an_existing_selection() {
    let mut queue = queue_of(&["/t/a.jpg", "/t/b.jpg"]);
    queue.selected = Some(1);
    queue.add_paths(walk(&["/t/a.jpg", "/t/b.jpg", "/t/c.jpg"]));
    assert_eq!(queue.selected, Some(1), "the user's choice should stand");
}

#[test]
fn removing_a_job_before_the_selection_shifts_it_down() {
    let mut queue = queue_of(&["/t/a.jpg", "/t/b.jpg", "/t/c.jpg"]);
    queue.selected = Some(2);
    queue.remove(0);
    assert_eq!(queue.selected, Some(1), "the same file should still be selected");
}

#[test]
fn removing_the_selected_job_keeps_a_valid_selection() {
    let mut queue = queue_of(&["/t/a.jpg", "/t/b.jpg", "/t/c.jpg"]);
    queue.selected = Some(1);
    queue.remove(1);
    assert_eq!(queue.len(), 2);
    assert_eq!(queue.selected, Some(1), "should land on the next item");

    queue.selected = Some(1);
    queue.remove(1);
    assert_eq!(queue.len(), 1);
    assert_eq!(queue.selected, Some(0));
}

#[test]
fn removing_the_only_job_clears_the_selection() {
    let mut queue = queue_of(&["/t/a.jpg"]);
    queue.remove(0);
    assert!(queue.is_empty());
    assert_eq!(queue.selected, None, "nothing left to select");
}

#[test]
fn removing_an_out_of_range_index_is_harmless() {
    let mut queue = JobQueue::default();
    queue.remove(5);
    assert!(queue.is_empty());
}

#[test]
fn a_removed_file_can_be_added_again() {
    let mut queue = queue_of(&["/t/a.jpg"]);
    queue.remove(0);
    assert_eq!(
        queue.add_paths(walk(&["/t/a.jpg"])),
        1,
        "removal should also forget the dedupe entry"
    );
}

#[test]
fn clearing_empties_everything_including_the_dedupe_set() {
    let mut queue = queue_of(&["/t/a.jpg", "/t/b.jpg"]);
    queue.clear();
    assert!(queue.is_empty());
    assert_eq!(queue.selected, None);
    assert_eq!(queue.add_paths(walk(&["/t/a.jpg", "/t/b.jpg"])), 2);
}

#[test]
fn clearing_completed_keeps_failures_and_pending_work() {
    let mut queue = queue_of(&["/t/done.jpg", "/t/failed.jpg", "/t/queued.jpg"]);

    for job in queue.jobs_mut() {
        let name = job.display_name();
        job.status = match name.as_str() {
            "done.jpg" => JobStatus::Done { output: "done.webp".to_owned(), bytes: 10 },
            "failed.jpg" => JobStatus::Failed { message: "boom".into(), command: None },
            _ => JobStatus::Queued,
        };
    }

    queue.clear_completed();

    let names: std::collections::HashSet<String> =
        queue.jobs().iter().map(|j| j.display_name()).collect();
    assert!(!names.contains("done.jpg"), "successes should be cleared");
    assert!(names.contains("failed.jpg"), "failures should stay so they can be retried");
    assert!(names.contains("queued.jpg"), "pending work should stay");
    assert_eq!(queue.len(), 2);
    // A cleared success can be queued again.
    assert_eq!(queue.add_paths(walk(&["/t/done.jpg"])), 1);
}

#[test]
fn clearing_completed_on_an_all_done_queue_clears_the_selection() {
    let mut queue = queue_of(&["/t/a.jpg"]);
    queue.jobs_mut()[0].status = JobStatus::Done { output: "a.webp".to_owned(), bytes: 1 };
    queue.clear_completed();
    assert!(queue.is_empty());
    assert_eq!(queue.selected, None);
}

#[test]
fn resetting_statuses_requeues_everything() {
    let mut queue = queue_of(&["/t/a.jpg", "/t/b.jpg"]);
    queue.jobs_mut()[0].status = JobStatus::Failed { message: "x".into(), command: None };
    queue.reset_statuses();
    assert!(queue.jobs().iter().all(|j| j.status == JobStatus::Queued));
}

#[test]
fn arrow_navigation_walks_the_list_and_stops_at_the_ends() {
    let mut queue = queue_of(&["/t/a.jpg", "/t/b.jpg", "/t/c.jpg"]);
    assert_eq!(queue.selected, Some(0));

    assert!(queue.select_next());
    assert_eq!(queue.selected, Some(1));
    assert!(queue.select_next());
    assert_eq!(queue.selected, Some(2));

    assert!(!queue.select_next(), "should report no movement at the end");
    assert_eq!(queue.selected, Some(2));

    assert!(queue.select_previous());
    assert_eq!(queue.selected, Some(1));
    assert!(queue.select_previous());
    assert_eq!(queue.selected, Some(0));
    assert!(!queue.select_previous(), "should stop at the top");
    assert_eq!(queue.selected, Some(0));
}

#[test]
fn arrow_navigation_from_no_selection_lands_on_the_first_row() {
    let mut queue = queue_of(&["/t/a.jpg", "/t/b.jpg"]);

    queue.selected = None;
    assert!(queue.select_next());
    assert_eq!(queue.selected, Some(0));

    queue.selected = None;
    assert!(queue.select_previous());
    assert_eq!(queue.selected, Some(0));
}

#[test]
fn arrow_navigation_on_an_empty_list_does_nothing() {
    let mut queue = JobQueue::default();
    assert!(!queue.select_next());
    assert!(!queue.select_previous());
    assert_eq!(queue.selected, None, "must not select a row that is not there");
}

#[test]
fn tally_counts_each_state() {
    let mut queue = queue_of(&["/t/a.jpg", "/t/b.jpg", "/t/c.jpg", "/t/d.jpg"]);

    queue.jobs_mut()[0].status = JobStatus::Done { output: "x".to_owned(), bytes: 1 };
    queue.jobs_mut()[1].status = JobStatus::Failed { message: "x".into(), command: None };
    queue.jobs_mut()[2].status = JobStatus::Running;

    let t = queue.tally();
    assert_eq!(t.done, 1);
    assert_eq!(t.failed, 1);
    assert_eq!(t.running, 1);
    assert_eq!(t.queued, 1);
    assert_eq!(t.total(), 4);
    assert_eq!(t.finished(), 2);
    let fraction = t.finished() as f32 / t.total() as f32;
    assert!((fraction - 0.5).abs() < f32::EPSILON);
}

#[test]
fn an_empty_tally_counts_nothing() {
    let t = Tally::default();
    assert_eq!(t.total(), 0);
    assert_eq!(t.finished(), 0);
}

#[test]
fn status_icons_and_labels_are_distinct_so_colour_is_never_the_only_cue() {
    let statuses = [
        JobStatus::Queued,
        JobStatus::Running,
        JobStatus::Done { output: String::new(), bytes: 0 },
        JobStatus::Skipped { output: String::new() },
        JobStatus::Failed { message: String::new(), command: None },
    ];

    let labels: std::collections::HashSet<&str> = statuses.iter().map(JobStatus::label).collect();
    assert_eq!(labels.len(), statuses.len(), "labels must be distinguishable");

    let icons: std::collections::HashSet<&str> = statuses.iter().map(JobStatus::icon).collect();
    assert_eq!(icons.len(), statuses.len(), "icons must be distinguishable");
}

#[test]
fn only_terminal_statuses_report_as_finished() {
    assert!(!JobStatus::Queued.is_finished());
    assert!(!JobStatus::Running.is_finished());
    assert!(JobStatus::Done { output: String::new(), bytes: 0 }.is_finished());
    assert!(JobStatus::Skipped { output: String::new() }.is_finished());
    assert!(JobStatus::Failed { message: String::new(), command: None }.is_finished());
}

#[test]
fn queued_inputs_are_what_a_batch_is_started_with() {
    let mut queue = queue_of(&["/t/a.jpg", "/t/b.jpg", "/t/c.jpg"]);
    queue.set_status(1, JobStatus::Done { output: "/t/b.webp".to_owned(), bytes: 3 });
    queue.set_status(9, JobStatus::Running);
    assert_eq!(
        queue.queued_inputs(),
        vec![(0, "/t/a.jpg".to_owned()), (2, "/t/c.jpg".to_owned())]
    );
    assert_eq!(queue.jobs()[1].status, JobStatus::Done { output: "/t/b.webp".to_owned(), bytes: 3 });
}

#[test]
fn the_selected_job_is_the_selected_row() {
    let mut queue = queue_of(&["/t/a.jpg", "/t/b.jpg"]);
    queue.selected = Some(1);
    assert_eq!(queue.selected_job().map(|j| j.display_name()), Some("b.jpg".to_owned()));
    queue.selected = Some(7);
    assert!(queue.selected_job().is_none());
}

#[test]
fn re_dropping_the_same_folder_adds_nothing_and_keeps_statuses() {
    let mut queue = JobQueue::default();
    assert_eq!(queue.add_paths(walk(&["/pics/a.png", "/pics/b.png"])), 2);

    queue.jobs_mut()[0].status = JobStatus::Done { output: "a.webp".to_owned(), bytes: 123 };

    assert_eq!(
        queue.add_paths(walk(&["/pics/a.png", "/pics/b.png"])),
        0,
        "a second drop of the same folder should be a no-op"
    );
    assert_eq!(queue.len(), 2);
    assert!(
        matches!(queue.jobs()[0].status, JobStatus::Done { .. }),
        "an existing job's status must survive a re-drop"
    );
}

#[test]
fn clearing_finished_leaves_only_the_failure_to_retry() {
    let mut queue = queue_of(&["/q/ok.png", "/q/bad.png"]);
    queue.set_status(0, JobStatus::Done { output: "/out/ok.webp".to_owned(), bytes: 10 });
    queue.set_status(
        1,
        JobStatus::Failed { message: "\"/q/bad.png\" is not a known file format".to_owned(), command: None },
    );

    queue.clear_completed();

    assert_eq!(queue.len(), 1, "only the failure should remain");
    assert_eq!(queue.jobs()[0].display_name(), "bad.png");
    assert!(
        queue.selected.is_some_and(|s| s < queue.len()),
        "the selection must stay in range after clearing"
    );
}
