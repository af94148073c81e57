use vips_gui::job::JobStatus;
use vips_gui::vips::convert::{ConvertError, Outcome};
use vips_gui::worker::{after_convert, default_worker_count_for, effective_worker_count};

#[test]
fn default_worker_count_is_at_least_one() {
    assert!(default_worker_count_for(Some(1)) >= 1);
    assert_eq!(default_worker_count_for(Some(16)), 8, "half the cores");
    assert_eq!(default_worker_count_for(None), 2);
}

#[test]
fn more_workers_than_jobs_is_harmless() {
    assert_eq!(effective_worker_count(8, 3), 3);
    assert_eq!(effective_worker_count(0, 3), 1);
    assert_eq!(effective_worker_count(4, 0), 1, "an empty batch still gets one worker");
    assert_eq!(effective_worker_count(2, 10), 2);
}

#[test]
fn each_result_becomes_a_status() {
    let done = after_convert(Ok(Outcome::Written { output: "a.webp".to_owned(), bytes: 100 }));
    assert_eq!(done.status, JobStatus::Done { output: "a.webp".to_owned(), bytes: 100 });
    assert!(!done.stop);
    assert_eq!(done.bytes_written, 100);

    let skipped = after_convert(Ok(Outcome::Skipped { output: "a.webp".to_owned() }));
    assert_eq!(skipped.status, JobStatus::Skipped { output: "a.webp".to_owned() });
    assert_eq!(skipped.bytes_written, 0);
}

#[test]
fn a_cancelled_job_is_requeued_and_stops_the_worker() {
    let a = after_convert(Err(ConvertError::Cancelled));
    assert_eq!(a.status, JobStatus::Queued);
    assert!(a.stop);
}

#[test]
fn a_failure_carries_the_command_for_the_copy_error_action() {
    let a = after_convert(Err(ConvertError::VipsFailed {
        message: "bad".to_owned(),
        command: "vips copy ...".to_owned(),
    }));
    assert_eq!(
        a.status,
        JobStatus::Failed { message: "bad".to_owned(), command: Some("vips copy ...".to_owned()) }
    );
    let b = after_convert(Err(ConvertError::SpawnFailed { reason: "no such file".to_owned() }));
    assert_eq!(
        b.status,
        JobStatus::Failed { message: "could not start vips: no such file".to_owned(), command: None }
    );
    assert!(!b.stop);
}
