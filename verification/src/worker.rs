//! Decisions of the batch pool: how many workers to run, and what a worker
//! reports after each conversion.

use vstd::prelude::*;
use crate::job::JobStatus;
use crate::vips::convert::{ConvertError, Outcome};
use crate::vips::discovery::VipsInstall;

verus! {

/// Thread count given to each child libvips. Two keeps a single image's
/// decode and encode overlapping without letting N children fight over every
/// core.
pub const DEFAULT_VIPS_CONCURRENCY: usize = 2;

/// Half the reported cores, at least one; two when the core count is unknown.
pub open spec fn default_workers_spec(parallelism: Option<usize>) -> usize {
    match parallelism {
        Some(n) => if n / 2 < 1 {
            1
        } else {
            (n / 2) as usize
        },
        None => 2,
    }
}

/// Sensible parallelism for a machine reporting `parallelism` cores.
///
/// Half the cores, because each worker spawns a `vips` that is itself
/// multi-threaded.
pub fn default_worker_count_for(parallelism: Option<usize>) -> (r: usize)
    ensures
        r == default_workers_spec(parallelism),
        r >= 1,
        forall|n: usize| parallelism == Some(n) && n >= 1 ==> r <= n,
{
    match parallelism {
        Some(n) => if n / 2 < 1 {
            1
        } else {
            n / 2
        },
        None => 2,
    }
}

/// The converter that runs `vips`: the installation to run, and the value
/// for each child's `VIPS_CONCURRENCY`.
#[derive(Debug, Clone)]
pub struct VipsConverter {
    pub install: VipsInstall,
    pub vips_concurrency: usize,
}

impl VipsConverter {
    pub fn new(install: VipsInstall, vips_concurrency: usize) -> (c: Self)
        ensures
            c.install == install,
            c.vips_concurrency == vips_concurrency,
    {
        VipsConverter { install, vips_concurrency }
    }
}

/// One job's outcome, addressed by its index in the queue.
#[derive(Debug, Clone)]
pub struct JobUpdate {
    pub index: usize,
    pub status: JobStatus,
}

/// How many workers a batch of `total` jobs gets when `requested` were
/// asked for: at least one, and no more than there are jobs.
pub open spec fn worker_count_spec(requested: usize, total: usize) -> usize {
    let most: usize = if total < 1 { 1 } else { total };
    if requested < 1 {
        1
    } else if requested > most {
        most
    } else {
        requested
    }
}

/// How many workers a batch of `total` jobs gets when `requested` were
/// asked for.
pub fn effective_worker_count(requested: usize, total: usize) -> (n: usize)
    ensures
        n == worker_count_spec(requested, total),
        1 <= n,
        n <= requested || requested == 0,
        total >= 1 ==> n <= total,
{
    let most = if total < 1 { 1 } else { total };
    if requested < 1 {
        1
    } else if requested > most {
        most
    } else {
        requested
    }
}

/// What a worker does after one conversion.
#[derive(Debug, Clone)]
pub struct AfterConvert {
    /// The status to report for the job.
    pub status: JobStatus,
    /// Stop pulling more work: the batch was cancelled.
    pub stop: bool,
    /// Bytes the conversion wrote, for the running total.
    pub bytes_written: u64,
}

/// Decide what a worker reports after one conversion: a written file is
/// done, a skip is a skip, a cancelled job goes back to queued (so a re-run
/// picks it up) and stops the worker, and any other error is a failure
/// carrying its message and, when vips itself failed, the command.
pub fn after_convert(result: Result<Outcome, ConvertError>) -> (a: AfterConvert)
    ensures
        match result {
            Ok(Outcome::Written { output, bytes }) => a.status == (JobStatus::Done { output, bytes })
                && !a.stop && a.bytes_written == bytes,
            Ok(Outcome::Skipped { output }) => a.status == (JobStatus::Skipped { output }) && !a.stop
                && a.bytes_written == 0,
            Err(ConvertError::Cancelled) => a.status == JobStatus::Queued && a.stop && a.bytes_written
                == 0,
            Err(e) => !a.stop && a.bytes_written == 0 && (a.status matches JobStatus::Failed {
                message,
                command,
            } && message@ == e.message_text() && command == match e {
                ConvertError::VipsFailed { message: _, command: c } => Some(c),
                _ => None,
            }),
        },
{
    match result {
        Ok(Outcome::Written { output, bytes }) => AfterConvert {
            status: JobStatus::Done { output, bytes },
            stop: false,
            bytes_written: bytes,
        },
        Ok(Outcome::Skipped { output }) => AfterConvert {
            status: JobStatus::Skipped { output },
            stop: false,
            bytes_written: 0,
        },
        Err(ConvertError::Cancelled) => AfterConvert {
            status: JobStatus::Queued,
            stop: true,
            bytes_written: 0,
        },
        Err(e) => {
            let message = e.message();
            let command = match e {
                ConvertError::VipsFailed { message: _, command } => Some(command),
                _ => None,
            };
            AfterConvert { status: JobStatus::Failed { message, command }, stop: false, bytes_written: 0 }
        },
    }
}

} // verus!
