//! The state machine behind the progress display.
//!
//! The reporter runs on its own execution context and consumes [`Msg`]
//! events: per-task phase updates, increments of the expected total, and a
//! final shutdown. This module verifies the bookkeeping — which task ids
//! have an open indicator, how many items are expected and completed —
//! while the visual rendering around it stays outside the library.

use vstd::prelude::*;
use crate::config::PROGRESS_BAR_TICK_TIME_MS;

verus! {

/// The visible lifecycle stage of one download task.
#[derive(Debug, Clone)]
pub enum Status {
    /// The task starts writing to the named file.
    Starting(String),
    /// The task is resolving the image page to the binary URL.
    ResolvingUrl,
    /// The first body bytes have arrived.
    Downloading,
    /// The task finished successfully.
    Done,
}

/// A phase change of one download task.
#[derive(Debug, Clone)]
pub struct Update {
    pub id: usize,
    pub status: Status,
}

/// One event consumed by the progress reporter.
#[derive(Debug)]
pub enum Msg {
    Update(Update),
    IncLen(u64),
    Quit,
}

/// A defect in the stream of progress events. These are programming
/// errors of the sender, not expected at runtime.
#[derive(Debug, Clone, PartialEq, Eq, Structural)]
pub enum ProgressError {
    /// A phase update arrived for a task id with no open indicator.
    UnknownId(usize),
    /// A counter left the representable range.
    CounterOverflow,
    /// The tick clock would have to reach before its origin.
    ClockUnderflow,
}

/// Whether an indicator for `id` must be animated now: always for a fresh
/// indicator, otherwise only when the last tick is at least the tick
/// interval in the past.
pub fn is_tick_needed(now_ms: u64, last_tick: &Option<u64>) -> (r: Result<bool, ProgressError>)
    ensures
        match *last_tick {
            Option::None => r == Result::<bool, ProgressError>::Ok(true),
            Option::Some(last) => if now_ms >= PROGRESS_BAR_TICK_TIME_MS {
                r == Result::<bool, ProgressError>::Ok(now_ms - PROGRESS_BAR_TICK_TIME_MS > last)
            } else {
                r == Result::<bool, ProgressError>::Err(ProgressError::ClockUnderflow)
            },
        },
{
    match last_tick {
        Option::None => Ok(true),
        Option::Some(last) => {
            if now_ms >= PROGRESS_BAR_TICK_TIME_MS {
                Ok(now_ms - PROGRESS_BAR_TICK_TIME_MS > *last)
            } else {
                Err(ProgressError::ClockUnderflow)
            }
        },
    }
}

/// The reporter's aggregate state: the expected total (unset until the
/// first announcement), the number of completed items, and the task ids
/// whose indicator is still open, in the order they appeared.
pub struct Reporter {
    total: Option<u64>,
    completed: u64,
    open_ids: Vec<usize>,
}

impl Reporter {
    pub closed spec fn spec_total(&self) -> Option<u64> {
        self.total
    }

    pub closed spec fn spec_completed(&self) -> u64 {
        self.completed
    }

    pub closed spec fn spec_open(&self) -> Seq<usize> {
        self.open_ids@
    }

    /// Every open indicator belongs to a distinct task id.
    pub open spec fn wf(&self) -> bool {
        forall|i: int, j: int|
            0 <= i < j < self.spec_open().len() ==> self.spec_open()[i] != self.spec_open()[j]
    }

    /// A reporter with nothing announced, nothing completed and no open
    /// indicator.
    pub fn new() -> (r: Reporter)
        ensures
            r.wf(),
            r.spec_total() is None,
            r.spec_completed() == 0,
            r.spec_open() == Seq::<usize>::empty(),
    {
        Reporter { total: None, completed: 0, open_ids: Vec::new() }
    }

    /// The expected total so far, counting an unset total as zero.
    pub open spec fn spec_total_or_zero(&self) -> u64 {
        match self.spec_total() {
            Option::Some(t) => t,
            Option::None => 0,
        }
    }

    fn find_open(&self, id: usize) -> (r: Option<usize>)
        ensures
            match r {
                Option::Some(k) => k < self.spec_open().len() && self.spec_open()[k as int] == id,
                Option::None => !self.spec_open().contains(id),
            },
    {
        let mut i: usize = 0;
        while i < self.open_ids.len()
            invariant
                i <= self.spec_open().len(),
                forall|j: int| 0 <= j < i ==> self.spec_open()[j] != id,
            decreases self.spec_open().len() - i,
        {
            if self.open_ids[i] == id {
                return Some(i);
            }
            i = i + 1;
        }
        None
    }

    /// Consume one event. On `Ok` the state has advanced as the event
    /// demands; on `Err` the event was a defect and the state is unchanged.
    pub fn handle(&mut self, msg: &Msg) -> (r: Result<(), ProgressError>)
        requires
            old(self).wf(),
        ensures
            final(self).wf(),
            match *msg {
                Msg::IncLen(n) => {
                    if old(self).spec_total_or_zero() + n <= u64::MAX {
                        &&& r is Ok
                        &&& final(self).spec_total() == Some(
                            (old(self).spec_total_or_zero() + n) as u64,
                        )
                        &&& final(self).spec_completed() == old(self).spec_completed()
                        &&& final(self).spec_open() == old(self).spec_open()
                    } else {
                        &&& r == Result::<(), ProgressError>::Err(ProgressError::CounterOverflow)
                        &&& *final(self) == *old(self)
                    }
                },
                Msg::Update(Update { id, status: Status::ResolvingUrl }) => {
                    if old(self).spec_open().contains(id) {
                        // a retried attempt replaces the indicator it left open
                        &&& r is Ok
                        &&& *final(self) == *old(self)
                    } else {
                        &&& r is Ok
                        &&& final(self).spec_open() == old(self).spec_open().push(id)
                        &&& final(self).spec_total() == old(self).spec_total()
                        &&& final(self).spec_completed() == old(self).spec_completed()
                    }
                },
                Msg::Update(Update { id, status: Status::Starting(_) })
                | Msg::Update(Update { id, status: Status::Downloading }) => {
                    if old(self).spec_open().contains(id) {
                        &&& r is Ok
                        &&& *final(self) == *old(self)
                    } else {
                        &&& r == Result::<(), ProgressError>::Err(ProgressError::UnknownId(id))
                        &&& *final(self) == *old(self)
                    }
                },
                Msg::Update(Update { id, status: Status::Done }) => {
                    if !old(self).spec_open().contains(id) {
                        &&& r == Result::<(), ProgressError>::Err(ProgressError::UnknownId(id))
                        &&& *final(self) == *old(self)
                    } else if old(self).spec_completed() == u64::MAX {
                        &&& r == Result::<(), ProgressError>::Err(ProgressError::CounterOverflow)
                        &&& *final(self) == *old(self)
                    } else {
                        &&& r is Ok
                        &&& final(self).spec_completed() == old(self).spec_completed() + 1
                        &&& final(self).spec_total() == old(self).spec_total()
                        &&& !final(self).spec_open().contains(id)
                        &&& final(self).spec_open().len() == old(self).spec_open().len() - 1
                        &&& (exists|k: int|
                            0 <= k < old(self).spec_open().len() && old(self).spec_open()[k] == id
                                && final(self).spec_open() == old(self).spec_open().remove(k))
                    }
                },
                Msg::Quit => {
                    &&& r is Ok
                    &&& final(self).spec_open() == Seq::<usize>::empty()
                    &&& final(self).spec_total() == old(self).spec_total()
                    &&& final(self).spec_completed() == old(self).spec_completed()
                },
            },
    {
        match msg {
            Msg::IncLen(n) => {
                let cur: u64 = match self.total {
                    Some(t) => t,
                    None => 0,
                };
                if *n <= u64::MAX - cur {
                    self.total = Some(cur + *n);
                    Ok(())
                } else {
                    Err(ProgressError::CounterOverflow)
                }
            },
            Msg::Update(update) => {
                let id = update.id;
                let found = self.find_open(id);
                match &update.status {
                    Status::ResolvingUrl => {
                        match found {
                            Some(_) => Ok(()),
                            None => {
                                self.open_ids.push(id);
                                Ok(())
                            },
                        }
                    },
                    Status::Starting(_) | Status::Downloading => {
                        match found {
                            Some(_) => Ok(()),
                            None => Err(ProgressError::UnknownId(id)),
                        }
                    },
                    Status::Done => {
                        match found {
                            Some(k) => {
                                if self.completed == u64::MAX {
                                    Err(ProgressError::CounterOverflow)
                                } else {
                                    self.open_ids.remove(k);
                                    self.completed = self.completed + 1;
                                    Ok(())
                                }
                            },
                            None => Err(ProgressError::UnknownId(id)),
                        }
                    },
                }
            },
            Msg::Quit => {
                self.open_ids.clear();
                Ok(())
            },
        }
    }

    /// How many items the reporter expects in total, if announced yet.
    pub fn total(&self) -> (r: Option<u64>)
        ensures
            r == self.spec_total(),
    {
        self.total
    }

    /// How many items have reached `Done`.
    pub fn completed(&self) -> (r: u64)
        ensures
            r == self.spec_completed(),
    {
        self.completed
    }

    /// How many indicators are still open.
    pub fn open_count(&self) -> (r: usize)
        ensures
            r == self.spec_open().len(),
    {
        self.open_ids.len()
    }
}

} // verus!
