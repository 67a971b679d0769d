//! Deciding how many records to render per batch and how long to pause.
//!
//! A run renders records in batches. Without pacing every batch is one
//! record; with pacing every batch is `batch_size` records, cut short so as
//! not to pass the record limit, and the next batch starts no sooner than
//! `batch_interval` after this one started. Before each batch the run stops
//! if the record limit is used up or the time limit has passed; time is only
//! looked at between batches. All durations are in nanoseconds.
//!
//! The caller owns the clock and the renderer: it asks `Scheduler::begin_batch`
//! with the time since the run started, renders that many records, then
//! sleeps for `Scheduler::pause_after` of the time the batch took.
use vstd::prelude::*;

verus! {

/// The limits a run is configured with. `batch_size` and
/// `batch_interval_nanos` go together: both or neither.
#[derive(Debug, Clone, Copy, PartialEq, Eq)]
pub struct ScheduleLimits {
    pub batch_size: Option<u32>,
    pub batch_interval_nanos: Option<u64>,
    pub record_limit: Option<u32>,
    pub time_limit_nanos: Option<u64>,
}

/// Limits that cannot be run.
#[derive(Debug, Clone, Copy, PartialEq, Eq)]
pub enum ScheduleError {
    /// Only one of `batch_size` and `batch_interval_nanos` was given.
    InvalidBatchArguments,
}

/// How batches are paced.
#[derive(Debug, Clone, Copy, PartialEq, Eq)]
pub enum Pacing {
    /// One record per batch, no pause.
    Unpaced,
    /// `batch_size` records per batch; a batch and the pause after it take
    /// at least `interval_nanos` together.
    Paced { batch_size: u32, interval_nanos: u64 },
}

/// Why a run stopped.
#[derive(Debug, Clone, Copy, PartialEq, Eq)]
pub enum StopReason {
    RecordLimit,
    TimeLimit,
    Both,
}

/// What to do next.
#[derive(Debug, Clone, Copy, PartialEq, Eq)]
pub enum Step {
    /// Render this many records, then pause.
    Render(u32),
    /// The run is over.
    Stop(StopReason),
}

/// The state of a run: its pacing, its time limit, and how many records it
/// may still render (`None` when it has no record limit).
#[derive(Debug, Clone, Copy, PartialEq, Eq)]
pub struct Scheduler {
    pub pacing: Pacing,
    pub time_limit_nanos: Option<u64>,
    pub records_remaining: Option<u32>,
}

/// The limits are runnable: batch size and interval are both given or both absent.
pub open spec fn limits_valid(limits: ScheduleLimits) -> bool {
    limits.batch_size is Some <==> limits.batch_interval_nanos is Some
}

/// The state a run with valid `limits` starts in.
pub open spec fn initial_state(limits: ScheduleLimits) -> Scheduler {
    Scheduler {
        pacing: match (limits.batch_size, limits.batch_interval_nanos) {
            (Some(batch_size), Some(interval_nanos)) => Pacing::Paced { batch_size, interval_nanos },
            _ => Pacing::Unpaced,
        },
        time_limit_nanos: limits.time_limit_nanos,
        records_remaining: limits.record_limit,
    }
}

/// Every record the limit allows has been rendered.
pub open spec fn record_limit_reached(s: Scheduler) -> bool {
    s.records_remaining == Some(0u32)
}

/// At `elapsed` nanoseconds since the start, the time limit has passed.
pub open spec fn time_limit_reached(s: Scheduler, elapsed: u64) -> bool {
    s.time_limit_nanos matches Some(t) && elapsed >= t
}

/// The number of records in the next batch, when the run goes on.
pub open spec fn batch_len(s: Scheduler) -> u32 {
    match s.pacing {
        Pacing::Unpaced => 1,
        Pacing::Paced { batch_size, .. } => match s.records_remaining {
            Some(left) => if left < batch_size {
                left
            } else {
                batch_size
            },
            None => batch_size,
        },
    }
}

/// The step a run in state `s` takes at `elapsed` nanoseconds since its start.
pub open spec fn step_at(s: Scheduler, elapsed: u64) -> Step {
    if record_limit_reached(s) && time_limit_reached(s, elapsed) {
        Step::Stop(StopReason::Both)
    } else if record_limit_reached(s) {
        Step::Stop(StopReason::RecordLimit)
    } else if time_limit_reached(s, elapsed) {
        Step::Stop(StopReason::TimeLimit)
    } else {
        Step::Render(batch_len(s))
    }
}

/// The state after rendering a batch of `n` records.
pub open spec fn after_batch(s: Scheduler, n: u32) -> Scheduler {
    Scheduler {
        records_remaining: match s.records_remaining {
            Some(left) => Some((left - n) as u32),
            None => None,
        },
        ..s
    }
}

/// How long to pause after a batch that took `batch_elapsed` nanoseconds:
/// what is left of the interval, and never less than nothing.
pub open spec fn pause_for(s: Scheduler, batch_elapsed: u64) -> u64 {
    match s.pacing {
        Pacing::Unpaced => 0,
        Pacing::Paced { interval_nanos, .. } => if batch_elapsed < interval_nanos {
            (interval_nanos - batch_elapsed) as u64
        } else {
            0
        },
    }
}

/// The batch sizes a run starting in state `s` renders, when its clock reads
/// `clock[i]` nanoseconds before the `i`-th batch; it ends when the run stops
/// or the readings run out.
pub open spec fn batches(s: Scheduler, clock: Seq<u64>) -> Seq<u32>
    decreases clock.len(),
{
    if clock.len() == 0 {
        Seq::empty()
    } else {
        match step_at(s, clock[0]) {
            Step::Render(n) => seq![n] + batches(after_batch(s, n), clock.drop_first()),
            Step::Stop(_) => Seq::empty(),
        }
    }
}

/// The number of records over a sequence of batches.
pub open spec fn records_in(b: Seq<u32>) -> int
    decreases b.len(),
{
    if b.len() == 0 {
        0
    } else {
        b[0] + records_in(b.drop_first())
    }
}

proof fn lemma_records_in_prepend(n: u32, rest: Seq<u32>)
    ensures
        records_in(seq![n] + rest) == n + records_in(rest),
{
    let b = seq![n] + rest;
    assert(b.len() > 0);
    assert(b[0] == n);
    assert(b.drop_first() =~= rest);
}

/// Whatever the clock reads, a run with a record limit never renders more
/// records than the limit allows.
pub proof fn lemma_record_limit_never_passed(s: Scheduler, clock: Seq<u64>)
    requires
        s.records_remaining is Some,
    ensures
        records_in(batches(s, clock)) <= s.records_remaining->0,
    decreases clock.len(),
{
    if clock.len() > 0 {
        if let Step::Render(n) = step_at(s, clock[0]) {
            let next = after_batch(s, n);
            lemma_record_limit_never_passed(next, clock.drop_first());
            lemma_records_in_prepend(n, batches(next, clock.drop_first()));
        }
    }
}

/// A run with a record limit and no time limit, whose batches are not empty,
/// renders exactly the record limit, given enough turns of its loop; after
/// that it stops for the record limit.
pub proof fn lemma_record_limit_reached_exactly(s: Scheduler, clock: Seq<u64>)
    requires
        s.records_remaining is Some,
        s.time_limit_nanos is None,
        s.pacing matches Pacing::Paced { batch_size, .. } ==> batch_size > 0,
        clock.len() > s.records_remaining->0,
    ensures
        records_in(batches(s, clock)) == s.records_remaining->0,
    decreases clock.len(),
{
    if let Step::Render(n) = step_at(s, clock[0]) {
        let next = after_batch(s, n);
        lemma_record_limit_reached_exactly(next, clock.drop_first());
        lemma_records_in_prepend(n, batches(next, clock.drop_first()));
    }
}

impl Scheduler {
    /// Starts a run under `limits`; a batch size without an interval, or an
    /// interval without a batch size, is refused.
    pub fn new(limits: ScheduleLimits) -> (r: Result<Scheduler, ScheduleError>)
        ensures
            r is Ok <==> limits_valid(limits),
            r is Err ==> r == Err::<Scheduler, ScheduleError>(ScheduleError::InvalidBatchArguments),
            r matches Ok(s) ==> s == initial_state(limits),
    {
        let pacing = match (limits.batch_size, limits.batch_interval_nanos) {
            (None, None) => Pacing::Unpaced,
            (Some(batch_size), Some(interval_nanos)) => Pacing::Paced { batch_size, interval_nanos },
            _ => return Err(ScheduleError::InvalidBatchArguments),
        };
        Ok(
            Scheduler {
                pacing,
                time_limit_nanos: limits.time_limit_nanos,
                records_remaining: limits.record_limit,
            },
        )
    }

    /// Decides the next step at `elapsed_nanos` since the run started, and
    /// counts a batch to render against the record limit.
    pub fn begin_batch(&mut self, elapsed_nanos: u64) -> (r: Step)
        ensures
            r == step_at(*old(self), elapsed_nanos),
            r matches Step::Render(n) ==> *final(self) == after_batch(*old(self), n),
            r is Stop ==> *final(self) == *old(self),
    {
        let records_done = match self.records_remaining {
            Some(left) => left == 0,
            None => false,
        };
        let time_done = match self.time_limit_nanos {
            Some(limit) => elapsed_nanos >= limit,
            None => false,
        };
        if records_done && time_done {
            return Step::Stop(StopReason::Both);
        } else if records_done {
            return Step::Stop(StopReason::RecordLimit);
        } else if time_done {
            return Step::Stop(StopReason::TimeLimit);
        }
        let n: u32 = match self.pacing {
            Pacing::Unpaced => 1,
            Pacing::Paced { batch_size, .. } => match self.records_remaining {
                Some(left) => if left < batch_size {
                    left
                } else {
                    batch_size
                },
                None => batch_size,
            },
        };
        self.records_remaining = match self.records_remaining {
            Some(left) => Some(left - n),
            None => None,
        };
        Step::Render(n)
    }

    /// How long to pause after a batch that took `batch_elapsed_nanos`.
    pub fn pause_after(&self, batch_elapsed_nanos: u64) -> (r: u64)
        ensures
            r == pause_for(*self, batch_elapsed_nanos),
    {
        match self.pacing {
            Pacing::Unpaced => 0,
            Pacing::Paced { interval_nanos, .. } => interval_nanos.saturating_sub(
                batch_elapsed_nanos,
            ),
        }
    }
}

} // verus!
