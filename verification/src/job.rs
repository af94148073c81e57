//! The queue of files to convert, and the per-file status the UI displays.
//!
//! Finding files (walking folders, reading sizes, resolving each file to a
//! key that identifies it on disk) happens outside this module; the queue
//! decides which of the files found are images, which are new, and keeps
//! the selection sensible as rows come and go.

use vstd::prelude::*;
use crate::path::{extension, file_name, path_extension, path_file_name};
use crate::text::{ascii_lower, chars_eq, chars_of, lower_seq};

verus! {

/// Input extensions offered for loading, matched case-insensitively.
///
/// Deliberately broader than the four output formats: libvips reads far
/// more than it writes here, and converting a TIFF or GIF to WebP is a
/// perfectly reasonable thing to want.
pub const INPUT_EXTENSIONS: [&'static str; 22] = [
    "jpg", "jpeg", "jpe", "jfif", "png", "webp", "avif", "heic", "heif", "tif", "tiff", "gif",
    "bmp", "jp2", "jxl", "ppm", "pgm", "pbm", "pnm", "exr", "hdr", "svg",
];

/// The input extensions, as text.
pub open spec fn input_extension_texts() -> Seq<Seq<char>> {
    INPUT_EXTENSIONS@.map_values(|e: &str| e@)
}

/// A path looks like an image that can be offered for conversion: its
/// extension, lower-cased, is one of [`INPUT_EXTENSIONS`].
pub open spec fn supported_input(path: Seq<char>) -> bool {
    match extension(path) {
        Some(e) => input_extension_texts().contains(lower_seq(e)),
        None => false,
    }
}

/// True when a path looks like an image we can offer to convert.
pub fn is_supported_input(path: &str) -> (b: bool)
    ensures
        b == supported_input(path@),
{
    let ext = match path_extension(path) {
        Some(e) => e,
        None => return false,
    };
    let mut lower: Vec<char> = Vec::new();
    for i in 0..ext.len()
        invariant
            lower@ == lower_seq(ext@.take(i as int)),
    {
        lower.push(ascii_lower(ext[i]));
        assert(lower_seq(ext@.take(i + 1)) =~= lower_seq(ext@.take(i as int)).push(
            crate::text::lower(ext@[i as int]),
        ));
    }
    assert(ext@.take(ext.len() as int) =~= ext@);
    let mut i: usize = 0;
    while i < INPUT_EXTENSIONS.len()
        invariant
            0 <= i <= INPUT_EXTENSIONS@.len(),
            lower@ == lower_seq(ext@),
            extension(path@) == Some(ext@),
            forall|k: int| 0 <= k < i ==> input_extension_texts()[k] != lower@,
        decreases INPUT_EXTENSIONS@.len() - i,
    {
        let candidate = chars_of(INPUT_EXTENSIONS[i]);
        if chars_eq(candidate.as_slice(), lower.as_slice()) {
            assert(input_extension_texts()[i as int] == lower@);
            assert(input_extension_texts().contains(lower@));
            return true;
        }
        i += 1;
    }
    assert forall|k: int| 0 <= k < input_extension_texts().len() implies input_extension_texts()[k]
        != lower@ by {}
    false
}

/// Where a single file is in its lifecycle.
#[derive(Debug, Clone, PartialEq, Eq)]
pub enum JobStatus {
    /// Waiting to be picked up.
    Queued,
    /// Currently being converted.
    Running,
    /// Converted successfully, to `output`, `bytes` long.
    Done { output: String, bytes: u64 },
    /// Deliberately not converted, because the output already existed.
    Skipped { output: String },
    /// Conversion failed. `message` is suitable for showing to a user;
    /// `command` is the vips command that failed, for the copy-error action.
    Failed { message: String, command: Option<String> },
}

impl Default for JobStatus {
    fn default() -> (r: Self)
        ensures
            r == JobStatus::Queued,
    {
        JobStatus::Queued
    }
}

impl JobStatus {
    /// Which of the five states this is, as a number.
    pub open spec fn kind(self) -> nat {
        match self {
            JobStatus::Queued => 0,
            JobStatus::Running => 1,
            JobStatus::Done { .. } => 2,
            JobStatus::Skipped { .. } => 3,
            JobStatus::Failed { .. } => 4,
        }
    }

    pub open spec fn label_text(self) -> Seq<char> {
        match self {
            JobStatus::Queued => "Queued"@,
            JobStatus::Running => "Converting"@,
            JobStatus::Done { .. } => "Done"@,
            JobStatus::Skipped { .. } => "Skipped"@,
            JobStatus::Failed { .. } => "Failed"@,
        }
    }

    /// A short label. Paired with [`Self::icon`] so status is never conveyed
    /// by colour alone.
    pub fn label(&self) -> (r: &'static str)
        ensures
            r@ == self.label_text(),
    {
        match self {
            JobStatus::Queued => "Queued",
            JobStatus::Running => "Converting",
            JobStatus::Done { .. } => "Done",
            JobStatus::Skipped { .. } => "Skipped",
            JobStatus::Failed { .. } => "Failed",
        }
    }

    pub open spec fn icon_text(self) -> Seq<char> {
        match self {
            JobStatus::Queued => "·"@,
            JobStatus::Running => "»"@,
            JobStatus::Done { .. } => "✔"@,
            JobStatus::Skipped { .. } => "–"@,
            JobStatus::Failed { .. } => "✖"@,
        }
    }

    /// A text glyph for the status, readable without colour vision.
    pub fn icon(&self) -> (r: &'static str)
        ensures
            r@ == self.icon_text(),
    {
        match self {
            JobStatus::Queued => "·",
            JobStatus::Running => "»",
            JobStatus::Done { .. } => "✔",
            JobStatus::Skipped { .. } => "–",
            JobStatus::Failed { .. } => "✖",
        }
    }

    /// The job will not change again without being reset.
    pub open spec fn finished(self) -> bool {
        self is Done || self is Skipped || self is Failed
    }

    /// True once this job will not change again without being reset.
    pub fn is_finished(&self) -> (b: bool)
        ensures
            b == self.finished(),
    {
        match self {
            JobStatus::Queued | JobStatus::Running => false,
            _ => true,
        }
    }

    /// The job finished without an error: written, or deliberately skipped.
    pub open spec fn succeeded(self) -> bool {
        self is Done || self is Skipped
    }
}

/// Labels and icons tell every pair of states apart, so colour is never the
/// only cue.
pub proof fn lemma_status_cues_distinct(a: JobStatus, b: JobStatus)
    requires
        a.kind() != b.kind(),
    ensures
        a.label_text() != b.label_text(),
        a.icon_text() != b.icon_text(),
{
    reveal_strlit("Queued");
    reveal_strlit("Converting");
    reveal_strlit("Done");
    reveal_strlit("Skipped");
    reveal_strlit("Failed");
    reveal_strlit("·");
    reveal_strlit("»");
    reveal_strlit("✔");
    reveal_strlit("–");
    reveal_strlit("✖");
    assert(a.label_text().len() != b.label_text().len() || a.label_text()[0] != b.label_text()[0]);
    assert(a.icon_text()[0] != b.icon_text()[0]);
}

/// One file to convert.
#[derive(Debug, Clone)]
pub struct Job {
    pub input: String,
    pub status: JobStatus,
    /// Size of the input, read when the job is added. `None` if unreadable.
    pub input_bytes: Option<u64>,
}

impl Job {
    /// A queued job for `input`, whose size on disk was `input_bytes`.
    pub fn new(input: String, input_bytes: Option<u64>) -> (j: Self)
        ensures
            j.input@ == input@,
            j.status == JobStatus::Queued,
            j.input_bytes == input_bytes,
    {
        Job { input, status: JobStatus::Queued, input_bytes }
    }

    pub open spec fn display_text(self) -> Seq<char> {
        match file_name(self.input@) {
            Some(n) => n,
            None => self.input@,
        }
    }

    /// The file name for display, falling back to the whole path.
    pub fn display_name(&self) -> (s: String)
        ensures
            s@ == self.display_text(),
    {
        match path_file_name(self.input.as_str()) {
            Some(n) => n,
            None => self.input.clone(),
        }
    }
}

/// A file found on disk, ready to be offered to the queue.
#[derive(Debug, Clone)]
pub struct FoundFile {
    /// The path as it is shown and converted.
    pub input: String,
    /// What identifies the file on disk (its resolved path), so the same file
    /// reached two ways is queued once.
    pub key: String,
    /// Its size, `None` if unreadable.
    pub input_bytes: Option<u64>,
}

/// The queued job for a file found on disk.
pub open spec fn queued_job(f: FoundFile) -> Job {
    Job { input: f.input, status: JobStatus::Queued, input_bytes: f.input_bytes }
}

/// The dedupe keys after offering `found` to a queue holding `keys`: each
/// image whose key is not yet known is taken, in order.
pub open spec fn keys_after(keys: Seq<Seq<char>>, found: Seq<FoundFile>) -> Seq<Seq<char>>
    decreases found.len(),
{
    if found.len() == 0 {
        keys
    } else {
        let before = keys_after(keys, found.drop_last());
        let f = found.last();
        if supported_input(f.input@) && !before.contains(f.key@) {
            before.push(f.key@)
        } else {
            before
        }
    }
}

/// The files of `found` that a queue holding `keys` takes, in order: images
/// whose key is neither queued already nor taken earlier from `found`.
pub open spec fn admitted(keys: Seq<Seq<char>>, found: Seq<FoundFile>) -> Seq<FoundFile>
    decreases found.len(),
{
    if found.len() == 0 {
        Seq::empty()
    } else {
        let earlier = admitted(keys, found.drop_last());
        let f = found.last();
        if supported_input(f.input@) && !keys_after(keys, found.drop_last()).contains(f.key@) {
            earlier.push(f)
        } else {
            earlier
        }
    }
}

/// The jobs that clearing the completed ones keeps: all but the successes,
/// in order.
pub open spec fn kept_jobs(jobs: Seq<Job>) -> Seq<Job>
    decreases jobs.len(),
{
    if jobs.len() == 0 {
        Seq::empty()
    } else if jobs.last().status.succeeded() {
        kept_jobs(jobs.drop_last())
    } else {
        kept_jobs(jobs.drop_last()).push(jobs.last())
    }
}

/// The dedupe keys of the jobs that [`kept_jobs`] keeps.
pub open spec fn kept_keys(jobs: Seq<Job>, keys: Seq<Seq<char>>) -> Seq<Seq<char>>
    decreases jobs.len(),
{
    if jobs.len() == 0 || keys.len() == 0 {
        Seq::empty()
    } else if jobs.last().status.succeeded() {
        kept_keys(jobs.drop_last(), keys.drop_last())
    } else {
        kept_keys(jobs.drop_last(), keys.drop_last()).push(keys.last())
    }
}

/// Where the selection goes when row `index` is removed and `remaining`
/// rows are left: it follows its row, lands on the next one when its own
/// row goes, and is clamped to the list.
pub open spec fn selection_after_removal(sel: Option<usize>, index: usize, remaining: nat) -> Option<
    usize,
> {
    match sel {
        None => None,
        Some(s) => if remaining == 0 {
            None
        } else if s > index {
            Some((s - 1) as usize)
        } else if s == index {
            Some(if s < remaining { s } else { (remaining - 1) as usize })
        } else {
            Some(s)
        },
    }
}

/// A selection clamped to a list of `len` rows.
pub open spec fn clamped_selection(sel: Option<usize>, len: nat) -> Option<usize> {
    match sel {
        None => None,
        Some(s) => if len == 0 {
            None
        } else {
            Some(if s < len { s } else { (len - 1) as usize })
        },
    }
}

/// How many of `jobs` are in the state numbered `kind`.
pub open spec fn count_kind(jobs: Seq<Job>, kind: nat) -> nat
    decreases jobs.len(),
{
    if jobs.len() == 0 {
        0
    } else {
        count_kind(jobs.drop_last(), kind) + if jobs.last().status.kind() == kind {
            1nat
        } else {
            0nat
        }
    }
}

/// The keys kept by [`kept_keys`] are keys that were there, each once.
pub proof fn lemma_kept_keys_distinct(jobs: Seq<Job>, keys: Seq<Seq<char>>)
    requires
        jobs.len() == keys.len(),
        keys.no_duplicates(),
    ensures
        kept_keys(jobs, keys).no_duplicates(),
        kept_keys(jobs, keys).len() == kept_jobs(jobs).len(),
        forall|k: Seq<char>| kept_keys(jobs, keys).contains(k) ==> keys.contains(k),
    decreases jobs.len(),
{
    if jobs.len() > 0 {
        let (j, ks) = (jobs.drop_last(), keys.drop_last());
        assert forall|a: int, b: int| 0 <= a < b < ks.len() implies ks[a] != ks[b] by {
            assert(ks[a] == keys[a] && ks[b] == keys[b]);
        }
        lemma_kept_keys_distinct(j, ks);
        let before = kept_keys(j, ks);
        assert forall|k: Seq<char>| kept_keys(jobs, keys).contains(k) implies keys.contains(k) by {
            if before.contains(k) {
                assert(ks.contains(k));
                let w = choose|w: int| 0 <= w < ks.len() && ks[w] == k;
                assert(keys[w] == ks[w]);
            } else {
                assert(keys[keys.len() - 1] == k);
            }
        }
        if !jobs.last().status.succeeded() {
            let last = keys.last();
            assert(!before.contains(last)) by {
                if before.contains(last) {
                    assert(ks.contains(last));
                    let w = choose|w: int| 0 <= w < ks.len() && ks[w] == last;
                    assert(keys[w] == ks[w]);
                    assert(keys[w] == keys[keys.len() - 1]);
                }
            }
            let after = before.push(last);
            assert forall|a: int, b: int| 0 <= a < b < after.len() implies after[a] != after[b] by {
                if b == before.len() {
                    assert(after[a] == before[a]);
                    assert(before.contains(before[a]));
                }
            }
        }
    }
}

/// The list of jobs, with duplicate suppression.
#[derive(Debug)]
pub struct JobQueue {
    jobs: Vec<Job>,
    /// The dedupe key of each job, in the same order, so re-dropping a
    /// folder does not create duplicate rows.
    keys: Vec<String>,
    /// Index of the row the user has selected, for the preview panel.
    pub selected: Option<usize>,
}

impl Default for JobQueue {
    fn default() -> (q: Self)
        ensures
            q.wf(),
            q.job_seq() == Seq::<Job>::empty(),
            q.key_seq() == Seq::<Seq<char>>::empty(),
            q.selection() is None,
    {
        let q = JobQueue { jobs: Vec::new(), keys: Vec::new(), selected: None };
        assert(q.key_seq() =~= Seq::<Seq<char>>::empty());
        q
    }
}

impl JobQueue {
    /// The jobs, in display order.
    pub closed spec fn job_seq(&self) -> Seq<Job> {
        self.jobs@
    }

    /// The dedupe key of each job, in the same order.
    pub closed spec fn key_seq(&self) -> Seq<Seq<char>> {
        self.keys@.map_values(|k: String| k@)
    }

    /// One key per job, and no file queued twice.
    pub closed spec fn wf(&self) -> bool {
        &&& self.jobs@.len() == self.keys@.len()
        &&& self.key_seq().no_duplicates()
    }

    /// The row the user has selected.
    pub closed spec fn selection(&self) -> Option<usize> {
        self.selected
    }

    /// The selection names a row, or nothing.
    pub open spec fn selection_valid(&self) -> bool {
        match self.selection() {
            Some(i) => i < self.job_seq().len(),
            None => true,
        }
    }

    pub fn jobs(&self) -> (r: &[Job])
        ensures
            r@ == self.job_seq(),
    {
        self.jobs.as_slice()
    }

    pub fn jobs_mut(&mut self) -> (r: &mut [Job])
        ensures
            r@ == old(self).job_seq(),
            final(self).job_seq() == final(r)@,
            final(self).key_seq() == old(self).key_seq(),
            final(self).selection() == old(self).selection(),
            old(self).wf() && final(r)@.len() == r@.len() ==> final(self).wf(),
    {
        self.jobs.as_mut_slice()
    }

    pub fn len(&self) -> (n: usize)
        ensures
            n == self.job_seq().len(),
    {
        self.jobs.len()
    }

    pub fn is_empty(&self) -> (b: bool)
        ensures
            b == (self.job_seq().len() == 0),
    {
        self.jobs.len() == 0
    }

    /// The currently selected job, if any.
    pub fn selected_job(&self) -> (r: Option<&Job>)
        ensures
            match self.selection() {
                Some(i) => if i < self.job_seq().len() {
                    r == Some(&self.job_seq()[i as int])
                } else {
                    r is None
                },
                None => r is None,
            },
    {
        match self.selected {
            Some(i) => if i < self.jobs.len() {
                Some(&self.jobs[i])
            } else {
                None
            },
            None => None,
        }
    }

    /// Whether `key` is among the queued files.
    fn holds_key(&self, key: &String) -> (b: bool)
        ensures
            b == self.key_seq().contains(key@),
    {
        let mut i: usize = 0;
        while i < self.keys.len()
            invariant
                0 <= i <= self.keys@.len(),
                forall|k: int| 0 <= k < i ==> self.key_seq()[k] != key@,
            decreases self.keys@.len() - i,
        {
            if self.keys[i] == *key {
                assert(self.key_seq()[i as int] == key@);
                return true;
            }
            i += 1;
        }
        false
    }

    /// Offer files found on disk (folders already walked into their
    /// files), skipping non-images and files already queued. Returns how
    /// many jobs were actually added. When nothing was selected, the first
    /// row becomes selected, so the preview is not blank after a drop; an
    /// existing choice is never overridden.
    pub fn add_paths(&mut self, found: Vec<FoundFile>) -> (added: usize)
        requires
            old(self).wf(),
        ensures
            final(self).wf(),
            final(self).job_seq() == old(self).job_seq() + admitted(old(self).key_seq(), found@).map_values(
                |f: FoundFile| queued_job(f),
            ),
            final(self).key_seq() == keys_after(old(self).key_seq(), found@),
            added == admitted(old(self).key_seq(), found@).len(),
            old(self).selection_valid() ==> final(self).selection_valid(),
            final(self).selection() == if old(self).selection() is None
                && final(self).job_seq().len() > 0 {
                Some(0usize)
            } else {
                old(self).selection()
            },
    {
        let ghost keys0 = self.key_seq();
        let ghost jobs0 = self.job_seq();
        let mut added: usize = 0;
        let total = found.len();
        for f in it: found.into_iter()
            invariant
                it.seq() == found@,
                found@.len() == total,
                self.wf(),
                self.selected == old(self).selected,
                self.key_seq() == keys_after(keys0, found@.take(it.index() as int)),
                self.job_seq() == jobs0 + admitted(keys0, found@.take(it.index() as int)).map_values(
                    |f: FoundFile| queued_job(f),
                ),
                added == admitted(keys0, found@.take(it.index() as int)).len(),
                added <= it.index(),
        {
            let ghost i = it.index() as int;
            proof {
                assert(i < found@.len());
                assert(found@.take(i + 1).drop_last() =~= found@.take(i));
                assert(found@.take(i + 1).last() == f);
            }
            let take = is_supported_input(f.input.as_str()) && !self.holds_key(&f.key);
            if take {
                let FoundFile { input, key, input_bytes } = f;
                proof {
                    let ks = self.key_seq();
                    assert forall|a: int, b: int|
                        0 <= a < b < ks.len() + 1 implies ks.push(key@)[a] != ks.push(key@)[b] by {
                        if b == ks.len() {
                            assert(ks.push(key@)[a] == ks[a]);
                            assert(!ks.contains(key@));
                        }
                    }
                }
                self.jobs.push(Job { input, status: JobStatus::Queued, input_bytes });
                self.keys.push(key);
                added += 1;
                proof {
                    assert(self.key_seq() =~= keys_after(keys0, found@.take(i + 1)));
                    assert(self.job_seq() =~= jobs0 + admitted(keys0, found@.take(i + 1)).map_values(
                        |f: FoundFile| queued_job(f),
                    ));
                }
            }
        }
        proof {
            assert(found@.take(found@.len() as int) =~= found@);
        }
        if self.selected.is_none() && self.jobs.len() > 0 {
            self.selected = Some(0);
        }
        added
    }

    /// Remove the job at `index`, keeping the selection on the same file
    /// where it can. An index past the end changes nothing.
    pub fn remove(&mut self, index: usize)
        requires
            old(self).wf(),
        ensures
            final(self).wf(),
            index >= old(self).job_seq().len() ==> *final(self) == *old(self),
            old(self).selection_valid() ==> final(self).selection_valid(),
            index < old(self).job_seq().len() ==> {
                &&& final(self).job_seq() == old(self).job_seq().remove(index as int)
                &&& final(self).key_seq() == old(self).key_seq().remove(index as int)
                &&& final(self).selection() == selection_after_removal(
                    old(self).selection(),
                    index,
                    (old(self).job_seq().len() - 1) as nat,
                )
            },
    {
        if index >= self.jobs.len() {
            return;
        }
        let ghost keys0 = self.key_seq();
        self.jobs.remove(index);
        self.keys.remove(index);
        proof {
            assert(self.key_seq() =~= keys0.remove(index as int));
            assert forall|a: int, b: int|
                0 <= a < b < self.key_seq().len() implies self.key_seq()[a] != self.key_seq()[b] by {
                let a0 = if a < index { a } else { a + 1 };
                let b0 = if b < index { b } else { b + 1 };
                assert(self.key_seq()[a] == keys0[a0]);
                assert(self.key_seq()[b] == keys0[b0]);
            }
        }
        let remaining = self.jobs.len();
        self.selected = match self.selected {
            None => None,
            Some(sel) => if remaining == 0 {
                None
            } else if sel > index {
                Some(sel - 1)
            } else if sel == index {
                Some(if sel < remaining { sel } else { remaining - 1 })
            } else {
                Some(sel)
            },
        };
    }

    /// Drop every job.
    pub fn clear(&mut self)
        ensures
            final(self).wf(),
            final(self).job_seq() == Seq::<Job>::empty(),
            final(self).key_seq() == Seq::<Seq<char>>::empty(),
            final(self).selection() is None,
    {
        self.jobs.clear();
        self.keys.clear();
        self.selected = None;
        assert(self.key_seq() =~= Seq::<Seq<char>>::empty());
    }

    /// Drop only the jobs that finished successfully (done or skipped),
    /// keeping failures for another attempt and pending work, in order.
    pub fn clear_completed(&mut self)
        requires
            old(self).wf(),
        ensures
            final(self).wf(),
            final(self).job_seq() == kept_jobs(old(self).job_seq()),
            final(self).key_seq() == kept_keys(old(self).job_seq(), old(self).key_seq()),
            final(self).selection() == clamped_selection(
                old(self).selection(),
                final(self).job_seq().len(),
            ),
            final(self).selection_valid(),
    {
        let ghost jobs0 = self.job_seq();
        let ghost keys0 = self.key_seq();
        let mut old_jobs: Vec<Job> = Vec::new();
        let mut old_keys: Vec<String> = Vec::new();
        std::mem::swap(&mut old_jobs, &mut self.jobs);
        std::mem::swap(&mut old_keys, &mut self.keys);
        let n = old_jobs.len();
        let mut i: usize = 0;
        assert(self.key_seq() =~= kept_keys(jobs0.take(0), keys0.take(0)));
        while i < n
            invariant
                0 <= i <= n,
                n == jobs0.len(),
                old_keys@.len() == n,
                keys0.len() == n,
                forall|k: int| i <= k < n ==> old_keys@[k]@ == keys0[k],
                forall|k: int| i <= k < n ==> old_jobs@[k] == jobs0[k],
                old_jobs@.len() == n,
                self.jobs@ == kept_jobs(jobs0.take(i as int)),
                self.key_seq() == kept_keys(jobs0.take(i as int), keys0.take(i as int)),
                self.selected == old(self).selected,
            decreases n - i,
        {
            proof {
                assert(jobs0.take(i + 1).drop_last() =~= jobs0.take(i as int));
                assert(keys0.take(i + 1).drop_last() =~= keys0.take(i as int));
            }
            let succeeded = match old_jobs[i].status {
                JobStatus::Done { .. } | JobStatus::Skipped { .. } => true,
                _ => false,
            };
            if !succeeded {
                let mut job = Job { input: String::new(), status: JobStatus::Queued, input_bytes: None };
                let mut key = String::new();
                std::mem::swap(&mut job, &mut old_jobs[i]);
                std::mem::swap(&mut key, &mut old_keys[i]);
                self.jobs.push(job);
                self.keys.push(key);
                proof {
                    assert(self.key_seq() =~= kept_keys(jobs0.take(i + 1), keys0.take(i + 1)));
                }
            }
            i += 1;
        }
        proof {
            assert(jobs0.take(n as int) =~= jobs0);
            assert(keys0.take(n as int) =~= keys0);
            lemma_kept_keys_distinct(jobs0, keys0);
        }
        let len = self.jobs.len();
        self.selected = match self.selected {
            None => None,
            Some(sel) => if len == 0 {
                None
            } else {
                Some(if sel < len { sel } else { len - 1 })
            },
        };
    }

    /// Move the selection down one row, for arrow-key navigation: from
    /// nothing to the first row, and no further than the last. Returns true
    /// when the selection moved.
    pub fn select_next(&mut self) -> (moved: bool)
        ensures
            final(self).job_seq() == old(self).job_seq(),
            final(self).key_seq() == old(self).key_seq(),
            old(self).wf() ==> final(self).wf(),
            old(self).selection_valid() ==> final(self).selection_valid(),
            old(self).job_seq().len() == 0 ==> !moved && final(self).selection()
                == old(self).selection(),
            old(self).job_seq().len() > 0 ==> {
                let next: usize = match old(self).selection() {
                    None => 0,
                    Some(c) => if c + 1 < old(self).job_seq().len() {
                        (c + 1) as usize
                    } else {
                        c
                    },
                };
                &&& final(self).selection() == Some(next)
                &&& moved == (old(self).selection() != Some(next))
            },
    {
        let len = self.jobs.len();
        if len == 0 {
            return false;
        }
        let (next, moved) = match self.selected {
            None => (0, true),
            Some(current) => if current < len - 1 {
                (current + 1, true)
            } else {
                (current, false)
            },
        };
        self.selected = Some(next);
        moved
    }

    /// Move the selection up one row: from nothing to the first row, and
    /// no further than the first. Returns true when the selection moved.
    pub fn select_previous(&mut self) -> (moved: bool)
        ensures
            final(self).job_seq() == old(self).job_seq(),
            final(self).key_seq() == old(self).key_seq(),
            old(self).wf() ==> final(self).wf(),
            old(self).selection_valid() ==> final(self).selection_valid(),
            old(self).job_seq().len() == 0 ==> !moved && final(self).selection()
                == old(self).selection(),
            old(self).job_seq().len() > 0 ==> {
                let previous: usize = match old(self).selection() {
                    None => 0,
                    Some(c) => if c == 0 {
                        0
                    } else {
                        (c - 1) as usize
                    },
                };
                &&& final(self).selection() == Some(previous)
                &&& moved == (old(self).selection() != Some(previous))
            },
    {
        if self.jobs.len() == 0 {
            return false;
        }
        let (previous, moved) = match self.selected {
            None => (0, true),
            Some(current) => if current == 0 {
                (0, false)
            } else {
                (current - 1, true)
            },
        };
        self.selected = Some(previous);
        moved
    }

    /// Put every job back to queued, so a finished batch can be re-run.
    pub fn reset_statuses(&mut self)
        ensures
            final(self).job_seq().len() == old(self).job_seq().len(),
            forall|k: int|
                0 <= k < final(self).job_seq().len() ==> (#[trigger] final(self).job_seq()[k]
                    == Job { status: JobStatus::Queued, ..old(self).job_seq()[k] }),
            final(self).key_seq() == old(self).key_seq(),
            final(self).selection() == old(self).selection(),
            old(self).wf() ==> final(self).wf(),
    {
        let n = self.jobs.len();
        for i in 0..n
            invariant
                n == old(self).jobs@.len(),
                self.jobs@.len() == n,
                self.keys == old(self).keys,
                self.selected == old(self).selected,
                forall|k: int|
                    0 <= k < i ==> (#[trigger] self.jobs@[k] == Job {
                        status: JobStatus::Queued,
                        ..old(self).jobs@[k]
                    }),
                forall|k: int| i <= k < n ==> #[trigger] self.jobs@[k] == old(self).jobs@[k],
        {
            self.jobs[i].status = JobStatus::Queued;
        }
    }

    /// Record a new status for the job at `index`; an index past the end
    /// changes nothing.
    pub fn set_status(&mut self, index: usize, status: JobStatus)
        ensures
            index < old(self).job_seq().len() ==> final(self).job_seq() == old(self).job_seq().update(
                index as int,
                Job { status, ..old(self).job_seq()[index as int] },
            ),
            index >= old(self).job_seq().len() ==> final(self).job_seq() == old(self).job_seq(),
            final(self).key_seq() == old(self).key_seq(),
            final(self).selection() == old(self).selection(),
            old(self).wf() ==> final(self).wf(),
    {
        if index < self.jobs.len() {
            self.jobs[index].status = status;
        }
    }

    /// The jobs waiting to be converted, by index, with their inputs: what a
    /// batch is started with.
    pub fn queued_inputs(&self) -> (r: Vec<(usize, String)>)
        ensures
            r@.map_values(|e: (usize, String)| (e.0 as int, e.1@)) == queued_entries(
                self.job_seq(),
            ),
    {
        let mut r: Vec<(usize, String)> = Vec::new();
        for i in 0..self.jobs.len()
            invariant
                r@.map_values(|e: (usize, String)| (e.0 as int, e.1@)) == queued_entries(
                    self.job_seq().take(i as int),
                ),
        {
            proof {
                assert(self.job_seq().take(i + 1).drop_last() =~= self.job_seq().take(i as int));
            }
            if let JobStatus::Queued = self.jobs[i].status {
                r.push((i, self.jobs[i].input.clone()));
            }
            proof {
                assert(r@.map_values(|e: (usize, String)| (e.0 as int, e.1@)) =~= queued_entries(
                    self.job_seq().take(i + 1),
                ));
            }
        }
        proof {
            assert(self.job_seq().take(self.job_seq().len() as int) =~= self.job_seq());
        }
        r
    }

    /// Counts by status, for the summary line.
    pub fn tally(&self) -> (t: Tally)
        ensures
            t.queued == count_kind(self.job_seq(), 0),
            t.running == count_kind(self.job_seq(), 1),
            t.done == count_kind(self.job_seq(), 2),
            t.skipped == count_kind(self.job_seq(), 3),
            t.failed == count_kind(self.job_seq(), 4),
    {
        let mut t = Tally { queued: 0, running: 0, done: 0, skipped: 0, failed: 0 };
        for i in 0..self.jobs.len()
            invariant
                t.queued == count_kind(self.job_seq().take(i as int), 0),
                t.running == count_kind(self.job_seq().take(i as int), 1),
                t.done == count_kind(self.job_seq().take(i as int), 2),
                t.skipped == count_kind(self.job_seq().take(i as int), 3),
                t.failed == count_kind(self.job_seq().take(i as int), 4),
                t.queued + t.running + t.done + t.skipped + t.failed == i,
        {
            proof {
                assert(self.job_seq().take(i + 1).drop_last() =~= self.job_seq().take(i as int));
            }
            match self.jobs[i].status {
                JobStatus::Queued => t.queued += 1,
                JobStatus::Running => t.running += 1,
                JobStatus::Done { .. } => t.done += 1,
                JobStatus::Skipped { .. } => t.skipped += 1,
                JobStatus::Failed { .. } => t.failed += 1,
            }
        }
        proof {
            assert(self.job_seq().take(self.job_seq().len() as int) =~= self.job_seq());
        }
        t
    }
}

/// The queued jobs of `jobs`, each with its index and input.
pub open spec fn queued_entries(jobs: Seq<Job>) -> Seq<(int, Seq<char>)>
    decreases jobs.len(),
{
    if jobs.len() == 0 {
        Seq::empty()
    } else if jobs.last().status == JobStatus::Queued {
        queued_entries(jobs.drop_last()).push((jobs.len() - 1, jobs.last().input@))
    } else {
        queued_entries(jobs.drop_last())
    }
}

/// How many jobs are in each state.
#[derive(Debug, Clone, Copy, PartialEq, Eq, Structural)]
pub struct Tally {
    pub queued: usize,
    pub running: usize,
    pub done: usize,
    pub skipped: usize,
    pub failed: usize,
}

impl Default for Tally {
    fn default() -> (t: Self)
        ensures
            t == (Tally { queued: 0, running: 0, done: 0, skipped: 0, failed: 0 }),
    {
        Tally { queued: 0, running: 0, done: 0, skipped: 0, failed: 0 }
    }
}

impl Tally {
    pub open spec fn total_count(self) -> int {
        self.queued + self.running + self.done + self.skipped + self.failed
    }

    pub open spec fn finished_count(self) -> int {
        self.done + self.skipped + self.failed
    }

    /// All jobs counted.
    pub fn total(self) -> (n: usize)
        requires
            self.total_count() <= usize::MAX,
        ensures
            n == self.total_count(),
    {
        self.queued + self.running + self.done + self.skipped + self.failed
    }

    /// The jobs that will not change again without being reset.
    pub fn finished(self) -> (n: usize)
        requires
            self.finished_count() <= usize::MAX,
        ensures
            n == self.finished_count(),
    {
        self.done + self.skipped + self.failed
    }
}

/// Offering files never forgets a key: everything known before is known
/// after, and every image offered is known after.
pub proof fn lemma_keys_after_covers(keys: Seq<Seq<char>>, found: Seq<FoundFile>)
    ensures
        forall|k: Seq<char>| keys.contains(k) ==> #[trigger] keys_after(keys, found).contains(k),
        forall|i: int|
            0 <= i < found.len() && supported_input(found[i].input@) ==> keys_after(
                keys,
                found,
            ).contains(#[trigger] found[i].key@),
    decreases found.len(),
{
    if found.len() > 0 {
        let rest = found.drop_last();
        lemma_keys_after_covers(keys, rest);
        let before = keys_after(keys, rest);
        let after = keys_after(keys, found);
        assert forall|k: Seq<char>| before.contains(k) implies after.contains(k) by {
            let w = choose|w: int| 0 <= w < before.len() && before[w] == k;
            assert(after[w] == k);
        }
        assert forall|i: int|
            0 <= i < found.len() && supported_input(found[i].input@) implies after.contains(
                #[trigger] found[i].key@,
            ) by {
            if i < rest.len() {
                assert(rest[i] == found[i]);
                assert(before.contains(rest[i].key@));
            } else if !before.contains(found.last().key@) {
                assert(after[before.len() as int] == found.last().key@);
            }
        }
    }
}

/// When every image offered is known already, nothing is admitted.
pub proof fn lemma_nothing_new_admitted(keys: Seq<Seq<char>>, found: Seq<FoundFile>)
    requires
        forall|i: int|
            0 <= i < found.len() && supported_input(found[i].input@) ==> keys.contains(
                #[trigger] found[i].key@,
            ),
    ensures
        admitted(keys, found).len() == 0,
        keys_after(keys, found) == keys,
    decreases found.len(),
{
    if found.len() > 0 {
        let rest = found.drop_last();
        assert forall|i: int|
            0 <= i < rest.len() && supported_input(rest[i].input@) implies keys.contains(
                #[trigger] rest[i].key@,
            ) by {
            assert(rest[i] == found[i]);
        }
        lemma_nothing_new_admitted(keys, rest);
        if supported_input(found.last().input@) {
            assert(keys.contains(found[found.len() - 1].key@));
        }
    }
}

/// No file is ever queued twice. A queue is well formed from the moment
/// it is made (`default`), and every method that changes one keeps it so;
/// in a well-formed queue each job has its own dedupe key and no two jobs
/// share a key.
pub proof fn lemma_no_file_queued_twice(q: &JobQueue)
    requires
        q.wf(),
    ensures
        q.key_seq().len() == q.job_seq().len(),
        forall|i: int, j: int|
            0 <= i < q.key_seq().len() && 0 <= j < q.key_seq().len() && i != j
                ==> #[trigger] q.key_seq()[i] != #[trigger] q.key_seq()[j],
{
}

/// Offering the same files a second time adds nothing: re-dropping a
/// folder is a no-op.
pub proof fn lemma_second_offer_adds_nothing(keys: Seq<Seq<char>>, found: Seq<FoundFile>)
    ensures
        admitted(keys_after(keys, found), found).len() == 0,
        keys_after(keys_after(keys, found), found) == keys_after(keys, found),
{
    lemma_keys_after_covers(keys, found);
    lemma_nothing_new_admitted(keys_after(keys, found), found);
}

/// Removing a job forgets its key, so the same file can be added again.
pub proof fn lemma_removed_key_forgotten(keys: Seq<Seq<char>>, index: int)
    requires
        keys.no_duplicates(),
        0 <= index < keys.len(),
    ensures
        !keys.remove(index).contains(keys[index]),
{
    if keys.remove(index).contains(keys[index]) {
        let w = choose|w: int| 0 <= w < keys.remove(index).len() && keys.remove(index)[w] == keys[index];
        let w0 = if w < index { w } else { w + 1 };
        assert(keys[w0] == keys[index]);
    }
}

/// Clearing the completed jobs keeps exactly the ones that did not
/// succeed: no success survives, and the number kept is the number of jobs
/// less those done or skipped.
pub proof fn lemma_clear_completed_keeps_the_rest(jobs: Seq<Job>)
    ensures
        forall|i: int| 0 <= i < kept_jobs(jobs).len() ==> !(#[trigger] kept_jobs(jobs)[i]).status.succeeded(),
        kept_jobs(jobs).len() == jobs.len() - count_kind(jobs, 2) - count_kind(jobs, 3),
    decreases jobs.len(),
{
    if jobs.len() > 0 {
        lemma_clear_completed_keeps_the_rest(jobs.drop_last());
        let before = kept_jobs(jobs.drop_last());
        if !jobs.last().status.succeeded() {
            assert forall|i: int| 0 <= i < kept_jobs(jobs).len() implies !(
            #[trigger] kept_jobs(jobs)[i]).status.succeeded() by {
                if i < before.len() {
                    assert(kept_jobs(jobs)[i] == before[i]);
                }
            }
        }
    }
}

/// The five counts of a tally add up to the number of jobs.
pub proof fn lemma_counts_cover_every_job(jobs: Seq<Job>)
    ensures
        count_kind(jobs, 0) + count_kind(jobs, 1) + count_kind(jobs, 2) + count_kind(jobs, 3)
            + count_kind(jobs, 4) == jobs.len(),
    decreases jobs.len(),
{
    if jobs.len() > 0 {
        lemma_counts_cover_every_job(jobs.drop_last());
    }
}


/// The selection stays on its job: when a row other than the selected one
/// is removed, the selection moves with the list so that it names the very
/// job it named before; when the selected row itself goes, the selection
/// stays on the list if anything is left.
pub proof fn lemma_selection_follows_its_job<A>(rows: Seq<A>, sel: usize, index: usize)
    requires
        index < rows.len(),
        sel < rows.len(),
    ensures
        sel != index ==> (selection_after_removal(Some(sel), index, (rows.len() - 1) as nat) matches Some(
            t,
        ) && t < rows.len() - 1 && rows.remove(index as int)[t as int] == rows[sel as int]),
        rows.len() > 1 ==> (selection_after_removal(Some(sel), index, (rows.len() - 1) as nat) matches Some(
            t,
        ) && t < rows.len() - 1),
{
}

} // verus!
