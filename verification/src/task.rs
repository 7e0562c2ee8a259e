//! The visible lifecycle of one download attempt.
//!
//! A task announces its phases to the progress reporter in a fixed
//! order: resolving the image URL, starting on a named file, downloading
//! once the first body bytes arrive — skipped when the body is empty —
//! and done. A failed attempt starts over; a finished task never emits
//! again.

use vstd::prelude::*;
use crate::progress::{Msg, Status, Update};

verus! {

/// Where in its lifecycle one download attempt stands.
#[derive(Debug, Clone, Copy, PartialEq, Eq, Structural)]
pub enum TaskPhase {
    /// No phase announced yet.
    Fresh,
    /// Resolving the image page to the binary URL.
    Resolving,
    /// The output file is named and created.
    Started,
    /// Body bytes are being written.
    Downloading,
    /// The task completed; terminal.
    Finished,
}

/// How far along its lifecycle a phase is.
pub open spec fn spec_phase_rank(p: TaskPhase) -> int {
    match p {
        TaskPhase::Fresh => 0,
        TaskPhase::Resolving => 1,
        TaskPhase::Started => 2,
        TaskPhase::Downloading => 3,
        TaskPhase::Finished => 4,
    }
}

/// The progress-event sequencer of one download task. Each step returns
/// the event to send to the reporter; the order of steps is forced by
/// their contracts, so a task can only announce phases in lifecycle
/// order and can finish only once.
pub struct TaskProgress {
    id: usize,
    phase: TaskPhase,
}

impl TaskProgress {
    /// The task id the events carry.
    pub closed spec fn spec_id(&self) -> usize {
        self.id
    }

    /// The current phase.
    pub closed spec fn spec_phase(&self) -> TaskPhase {
        self.phase
    }

    /// A sequencer for the task with the given id, before any event.
    pub fn new(id: usize) -> (r: TaskProgress)
        ensures
            r.spec_id() == id,
            r.spec_phase() == TaskPhase::Fresh,
    {
        TaskProgress { id, phase: TaskPhase::Fresh }
    }

    /// Announce that the task is resolving its image URL.
    pub fn begin_resolving(&mut self) -> (m: Msg)
        requires
            old(self).spec_phase() == TaskPhase::Fresh,
        ensures
            final(self).spec_id() == old(self).spec_id(),
            final(self).spec_phase() == TaskPhase::Resolving,
            m == Msg::Update(Update { id: old(self).spec_id(), status: Status::ResolvingUrl }),
    {
        self.phase = TaskPhase::Resolving;
        Msg::Update(Update { id: self.id, status: Status::ResolvingUrl })
    }

    /// Announce that the task starts writing the named file.
    pub fn begin_file(&mut self, file_name: String) -> (m: Msg)
        requires
            old(self).spec_phase() == TaskPhase::Resolving,
        ensures
            final(self).spec_id() == old(self).spec_id(),
            final(self).spec_phase() == TaskPhase::Started,
            m == Msg::Update(
                Update { id: old(self).spec_id(), status: Status::Starting(file_name) },
            ),
    {
        self.phase = TaskPhase::Started;
        Msg::Update(Update { id: self.id, status: Status::Starting(file_name) })
    }

    /// Announce the first body bytes.
    pub fn begin_body(&mut self) -> (m: Msg)
        requires
            old(self).spec_phase() == TaskPhase::Started,
        ensures
            final(self).spec_id() == old(self).spec_id(),
            final(self).spec_phase() == TaskPhase::Downloading,
            m == Msg::Update(Update { id: old(self).spec_id(), status: Status::Downloading }),
    {
        self.phase = TaskPhase::Downloading;
        Msg::Update(Update { id: self.id, status: Status::Downloading })
    }

    /// Announce completion. Allowed with or without body bytes seen, and
    /// only once: no step leads out of the finished phase.
    pub fn finish(&mut self) -> (m: Msg)
        requires
            old(self).spec_phase() == TaskPhase::Started || old(self).spec_phase()
                == TaskPhase::Downloading,
        ensures
            final(self).spec_id() == old(self).spec_id(),
            final(self).spec_phase() == TaskPhase::Finished,
            m == Msg::Update(Update { id: old(self).spec_id(), status: Status::Done }),
    {
        self.phase = TaskPhase::Finished;
        Msg::Update(Update { id: self.id, status: Status::Done })
    }

    /// Forget an attempt that failed part-way, so the next attempt can
    /// announce from the start. A finished task cannot restart.
    pub fn restart(&mut self)
        requires
            old(self).spec_phase() != TaskPhase::Finished,
        ensures
            final(self).spec_id() == old(self).spec_id(),
            final(self).spec_phase() == TaskPhase::Fresh,
    {
        self.phase = TaskPhase::Fresh;
    }

    /// The current phase.
    pub fn phase(&self) -> (r: TaskPhase)
        ensures
            r == self.spec_phase(),
    {
        self.phase
    }
}

/// Every announcing step moves the task strictly forward in its
/// lifecycle: within one attempt, phases are strictly ordered.
pub proof fn lemma_phases_strictly_ordered()
    ensures
        spec_phase_rank(TaskPhase::Fresh) < spec_phase_rank(TaskPhase::Resolving) < spec_phase_rank(
            TaskPhase::Started,
        ) < spec_phase_rank(TaskPhase::Downloading) < spec_phase_rank(TaskPhase::Finished),
{
}

} // verus!
