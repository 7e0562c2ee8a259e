//! The per-gallery orchestration state machine.
//!
//! The orchestrator consumes discovery messages (one title, then batches of
//! image URLs, or a terminal error), admits download tasks into a pool of
//! at most `jobs` concurrent slots, and decides the run's final outcome.
//! The waiting itself — on channels, permits and joins — happens outside
//! the library; every decision along the way is made here.
//!
//! Invariants kept by every step: never more than `jobs` tasks in flight;
//! task ids are the admission order `0, 1, 2, ...`; nothing is admitted and
//! no directory name exists before the title arrived; completed tasks never
//! outnumber admitted ones.

use vstd::prelude::*;
use crate::progress;
use crate::title::{sanitize_title, spec_sanitize_title};
use crate::uri::Url;

verus! {

/// A failure that makes the whole run fail (exit non-zero). Failures of
/// individual downloads are not of this kind.
#[derive(Debug, Clone)]
pub enum RunError {
    /// No site rules matched the gallery URL.
    NoDownloaderFound,
    /// A second title announcement arrived for the same gallery.
    TitleRepeated,
    /// The discovery stream reported a terminal error.
    Resolver(String),
    /// The output directory could not be created.
    DirCreate(String),
    /// A spawned download task could not be joined.
    TaskJoin(String),
}

/// What a run reports when it ends without a fatal error. Individual
/// failed downloads appear in `failed` but do not make the run fail.
#[derive(Debug, Clone)]
pub struct RunSummary {
    /// Downloads that completed successfully.
    pub done: usize,
    /// Downloads that exhausted their retry budget.
    pub failed: usize,
    /// Image URLs announced over all batches.
    pub announced: usize,
}

/// One admitted unit of work: a task id and the image URL it downloads.
/// Never mutated after creation; ids are unique within a run.
pub struct DownloadTask {
    pub id: usize,
    pub url: Url,
}

/// The orchestration state of one gallery run.
pub struct Run {
    jobs: usize,
    dir_name: Option<String>,
    announced: usize,
    next_id: usize,
    in_flight: usize,
    done: usize,
    failed: usize,
    fatal: Option<RunError>,
    admitted: Ghost<Seq<usize>>,
}

impl Run {
    /// The concurrency limit the run was configured with.
    pub closed spec fn spec_jobs(&self) -> usize {
        self.jobs
    }

    /// The sanitized directory name, once the title has been processed.
    pub closed spec fn spec_dir_name(&self) -> Option<String> {
        self.dir_name
    }

    /// How many image URLs have been announced over all batches.
    pub closed spec fn spec_announced(&self) -> usize {
        self.announced
    }

    /// The id the next admitted task will get; equally, how many tasks
    /// have been admitted.
    pub closed spec fn spec_next_id(&self) -> usize {
        self.next_id
    }

    /// How many admitted tasks have not ended yet.
    pub closed spec fn spec_in_flight(&self) -> usize {
        self.in_flight
    }

    /// How many tasks ended successfully.
    pub closed spec fn spec_done(&self) -> usize {
        self.done
    }

    /// How many tasks ended with their retry budget exhausted.
    pub closed spec fn spec_failed(&self) -> usize {
        self.failed
    }

    /// The first fatal error observed, if any.
    pub closed spec fn spec_fatal(&self) -> Option<RunError> {
        self.fatal
    }

    /// The ids of all admitted tasks, in admission order.
    pub closed spec fn spec_admitted(&self) -> Seq<usize> {
        self.admitted@
    }

    /// The state invariant, established by [`Run::new`] and preserved by
    /// every step.
    pub open spec fn wf(&self) -> bool {
        &&& 1 <= self.spec_jobs()
        &&& self.spec_in_flight() <= self.spec_jobs()
        &&& self.spec_done() + self.spec_failed() + self.spec_in_flight() == self.spec_next_id()
        &&& self.spec_next_id() <= self.spec_announced()
        &&& (self.spec_dir_name() is None ==> self.spec_next_id() == 0 && self.spec_announced()
            == 0)
        &&& self.spec_admitted().len() == self.spec_next_id()
        &&& (forall|i: int|
            0 <= i < self.spec_admitted().len() ==> self.spec_admitted()[i] as int == i)
    }

    /// A fresh run with `jobs` concurrency slots and nothing admitted.
    pub fn new(jobs: usize) -> (r: Run)
        requires
            1 <= jobs,
        ensures
            r.wf(),
            r.spec_jobs() == jobs,
            r.spec_dir_name() is None,
            r.spec_announced() == 0,
            r.spec_next_id() == 0,
            r.spec_in_flight() == 0,
            r.spec_done() == 0,
            r.spec_failed() == 0,
            r.spec_fatal() is None,
    {
        Run {
            jobs,
            dir_name: None,
            announced: 0,
            next_id: 0,
            in_flight: 0,
            done: 0,
            failed: 0,
            fatal: None,
            admitted: Ghost(Seq::empty()),
        }
    }

    /// The first fatal error stays; later ones are only reported to their
    /// callers.
    pub open spec fn spec_with_fatal(&self, e: RunError) -> Option<RunError> {
        if self.spec_fatal() is Some {
            self.spec_fatal()
        } else {
            Some(e)
        }
    }

    /// Process the title announcement: the sanitized title becomes the
    /// name of the gallery's output directory, returned for the caller to
    /// create. A second title is a fatal defect of the discovery stream.
    pub fn on_title(&mut self, raw_title: &str) -> (r: Result<String, RunError>)
        requires
            old(self).wf(),
        ensures
            final(self).wf(),
            final(self).spec_jobs() == old(self).spec_jobs(),
            final(self).spec_announced() == old(self).spec_announced(),
            final(self).spec_next_id() == old(self).spec_next_id(),
            final(self).spec_in_flight() == old(self).spec_in_flight(),
            final(self).spec_done() == old(self).spec_done(),
            final(self).spec_failed() == old(self).spec_failed(),
            final(self).spec_admitted() == old(self).spec_admitted(),
            match old(self).spec_dir_name() {
                Option::None => {
                    &&& r matches Ok(name) && name@ == spec_sanitize_title(raw_title@)
                    &&& final(self).spec_dir_name() matches Some(d) && d@ == spec_sanitize_title(
                        raw_title@,
                    )
                    &&& final(self).spec_fatal() == old(self).spec_fatal()
                },
                Option::Some(_) => {
                    &&& r == Result::<String, RunError>::Err(RunError::TitleRepeated)
                    &&& final(self).spec_dir_name() == old(self).spec_dir_name()
                    &&& final(self).spec_fatal() == old(self).spec_with_fatal(
                        RunError::TitleRepeated,
                    )
                },
            },
    {
        if self.dir_name.is_some() {
            if self.fatal.is_none() {
                self.fatal = Some(RunError::TitleRepeated);
            }
            return Err(RunError::TitleRepeated);
        }
        let name = sanitize_title(raw_title);
        self.dir_name = Some(name.clone());
        Ok(name)
    }

    /// Record an arriving batch of `count` image URLs and produce the
    /// matching announcement for the progress reporter. The title must
    /// have been processed first; a batch before the title is a defect
    /// the process halts on, so that input is excluded here.
    pub fn on_images_announced(&mut self, count: usize) -> (r: progress::Msg)
        requires
            old(self).wf(),
            old(self).spec_dir_name() is Some,
            old(self).spec_announced() + count <= usize::MAX,
        ensures
            final(self).wf(),
            final(self).spec_announced() == old(self).spec_announced() + count,
            r == progress::Msg::IncLen(count as u64),
            final(self).spec_jobs() == old(self).spec_jobs(),
            final(self).spec_dir_name() == old(self).spec_dir_name(),
            final(self).spec_next_id() == old(self).spec_next_id(),
            final(self).spec_in_flight() == old(self).spec_in_flight(),
            final(self).spec_done() == old(self).spec_done(),
            final(self).spec_failed() == old(self).spec_failed(),
            final(self).spec_fatal() == old(self).spec_fatal(),
            final(self).spec_admitted() == old(self).spec_admitted(),
    {
        self.announced = self.announced + count;
        progress::Msg::IncLen(count as u64)
    }

    /// Whether a free concurrency slot exists. Admission must wait until
    /// this holds; that wait is the pipeline's backpressure.
    pub fn can_spawn(&self) -> (r: bool)
        ensures
            r == (self.spec_in_flight() < self.spec_jobs()),
    {
        self.in_flight < self.jobs
    }

    /// Admit the next announced URL as a download task, occupying one
    /// concurrency slot. Ids are handed out in admission order, starting
    /// at zero. Requires a free slot, a processed title, no fatal error
    /// observed, and an announced URL still unadmitted.
    pub fn start_task(&mut self, url: Url) -> (t: DownloadTask)
        requires
            old(self).wf(),
            old(self).spec_dir_name() is Some,
            old(self).spec_fatal() is None,
            old(self).spec_in_flight() < old(self).spec_jobs(),
            old(self).spec_next_id() < old(self).spec_announced(),
        ensures
            final(self).wf(),
            t.id == old(self).spec_next_id(),
            t.url == url,
            final(self).spec_next_id() == old(self).spec_next_id() + 1,
            final(self).spec_in_flight() == old(self).spec_in_flight() + 1,
            final(self).spec_admitted() == old(self).spec_admitted().push(
                old(self).spec_next_id(),
            ),
            final(self).spec_jobs() == old(self).spec_jobs(),
            final(self).spec_dir_name() == old(self).spec_dir_name(),
            final(self).spec_announced() == old(self).spec_announced(),
            final(self).spec_done() == old(self).spec_done(),
            final(self).spec_failed() == old(self).spec_failed(),
            final(self).spec_fatal() == old(self).spec_fatal(),
    {
        let id = self.next_id;
        self.next_id = self.next_id + 1;
        self.in_flight = self.in_flight + 1;
        proof {
            self.admitted@ = self.admitted@.push(id);
        }
        DownloadTask { id, url }
    }

    /// Record that one in-flight task ended, releasing its slot. `success`
    /// says whether it completed or exhausted its retries; either way the
    /// slot is returned.
    pub fn on_task_end(&mut self, success: bool)
        requires
            old(self).wf(),
            1 <= old(self).spec_in_flight(),
        ensures
            final(self).wf(),
            final(self).spec_in_flight() == old(self).spec_in_flight() - 1,
            final(self).spec_done() == old(self).spec_done() + (if success {
                1int
            } else {
                0int
            }),
            final(self).spec_failed() == old(self).spec_failed() + (if success {
                0int
            } else {
                1int
            }),
            final(self).spec_jobs() == old(self).spec_jobs(),
            final(self).spec_dir_name() == old(self).spec_dir_name(),
            final(self).spec_announced() == old(self).spec_announced(),
            final(self).spec_next_id() == old(self).spec_next_id(),
            final(self).spec_fatal() == old(self).spec_fatal(),
            final(self).spec_admitted() == old(self).spec_admitted(),
    {
        self.in_flight = self.in_flight - 1;
        if success {
            self.done = self.done + 1;
        } else {
            self.failed = self.failed + 1;
        }
    }

    /// Record a fatal error. Only the first one is kept; it decides the
    /// run's outcome. Admission stops once a fatal error is recorded, but
    /// tasks already in flight drain normally.
    pub fn on_fatal(&mut self, e: RunError)
        requires
            old(self).wf(),
        ensures
            final(self).wf(),
            final(self).spec_fatal() == old(self).spec_with_fatal(e),
            final(self).spec_jobs() == old(self).spec_jobs(),
            final(self).spec_dir_name() == old(self).spec_dir_name(),
            final(self).spec_announced() == old(self).spec_announced(),
            final(self).spec_next_id() == old(self).spec_next_id(),
            final(self).spec_in_flight() == old(self).spec_in_flight(),
            final(self).spec_done() == old(self).spec_done(),
            final(self).spec_failed() == old(self).spec_failed(),
            final(self).spec_admitted() == old(self).spec_admitted(),
    {
        if self.fatal.is_none() {
            self.fatal = Some(e);
        }
    }

    /// Whether a fatal error has been recorded.
    pub fn is_fatal(&self) -> (r: bool)
        ensures
            r == (self.spec_fatal() is Some),
    {
        self.fatal.is_some()
    }

    /// The configured concurrency limit.
    pub fn jobs(&self) -> (r: usize)
        ensures
            r == self.spec_jobs(),
    {
        self.jobs
    }

    /// The directory name made from the title, once processed.
    pub fn dir_name(&self) -> (r: &Option<String>)
        ensures
            *r == self.spec_dir_name(),
    {
        &self.dir_name
    }

    /// How many image URLs have been announced so far.
    pub fn announced(&self) -> (r: usize)
        ensures
            r == self.spec_announced(),
    {
        self.announced
    }

    /// How many tasks have been admitted so far.
    pub fn admitted_count(&self) -> (r: usize)
        ensures
            r == self.spec_next_id(),
    {
        self.next_id
    }

    /// How many tasks are in flight right now.
    pub fn in_flight(&self) -> (r: usize)
        ensures
            r == self.spec_in_flight(),
    {
        self.in_flight
    }

    /// How many tasks ended successfully so far.
    pub fn done_count(&self) -> (r: usize)
        ensures
            r == self.spec_done(),
    {
        self.done
    }

    /// How many tasks exhausted their retries so far.
    pub fn failed_count(&self) -> (r: usize)
        ensures
            r == self.spec_failed(),
    {
        self.failed
    }

    /// The run's outcome once everything has drained: the first fatal
    /// error if one occurred — the process then exits non-zero — else a
    /// summary of the best-effort result, which exits zero even when some
    /// downloads failed.
    pub fn take_outcome(self) -> (r: Result<RunSummary, RunError>)
        requires
            self.wf(),
            self.spec_in_flight() == 0,
        ensures
            match self.spec_fatal() {
                Option::Some(e) => r == Result::<RunSummary, RunError>::Err(e),
                Option::None => {
                    &&& r matches Ok(s)
                    &&& s.done == self.spec_done()
                    &&& s.failed == self.spec_failed()
                    &&& s.announced == self.spec_announced()
                },
            },
    {
        match self.fatal {
            Some(e) => Err(e),
            None => Ok(
                RunSummary { done: self.done, failed: self.failed, announced: self.announced },
            ),
        }
    }
}

/// At no point do more tasks hold a concurrency slot than the run was
/// configured with.
pub proof fn lemma_permits_bounded(r: &Run)
    requires
        r.wf(),
    ensures
        r.spec_in_flight() <= r.spec_jobs(),
{
}

/// Task ids are assigned in strictly increasing order of admission,
/// whatever order tasks complete in.
pub proof fn lemma_task_ids_strictly_increasing(r: &Run, i: int, j: int)
    requires
        r.wf(),
        0 <= i < j < r.spec_admitted().len(),
    ensures
        r.spec_admitted()[i] < r.spec_admitted()[j],
{
}

/// Before the title is processed — and so before its directory can
/// exist — no URL is announced and nothing is admitted.
pub proof fn lemma_title_first(r: &Run)
    requires
        r.wf(),
        r.spec_announced() > 0 || r.spec_next_id() > 0,
    ensures
        r.spec_dir_name() is Some,
{
}

/// Completed tasks never outnumber the URLs admitted, and admitted tasks
/// never outnumber the URLs announced.
pub proof fn lemma_done_bounded(r: &Run)
    requires
        r.wf(),
    ensures
        r.spec_done() <= r.spec_next_id() <= r.spec_announced(),
{
}

} // verus!
