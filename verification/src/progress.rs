//! The polling loop that follows a long-running update.
//!
//! The native layer announces no event when the progress of an update
//! changes, so the bridge has to ask: read the progress, hand the sample to
//! the subscriber, sleep, and ask again. A [`ProgressWatcher`] decides, for
//! each reading, what is handed on and whether the loop goes on. The loop
//! ends for good with the first sample whose status is terminal or invalid,
//! and earlier where its owner stops it.

use vstd::prelude::*;
use crate::consts::EItemUpdateStatus;
use crate::steamugc::UpdateProgress;

verus! {

/// The number of milliseconds between two readings where the caller names
/// none.
pub const DEFAULT_INTERVAL_MS: u32 = 1000;

/// What a status means for the loop.
#[derive(Clone, Copy, Debug, PartialEq, Eq, Structural)]
pub enum StatusClass {
    /// The update is on its way: more samples will follow.
    InProgress,
    /// The update has reached its last stage: no sample follows this one.
    Terminal,
    /// The update is not, or no longer, known: no sample follows this one.
    Invalid,
}

/// What `status` means for the loop. The last stage of an update is the
/// commit of its changes.
pub open spec fn classify_spec(status: EItemUpdateStatus) -> StatusClass {
    match status {
        EItemUpdateStatus::Invalid => StatusClass::Invalid,
        EItemUpdateStatus::CommittingChanges => StatusClass::Terminal,
        _ => StatusClass::InProgress,
    }
}

/// What `status` means for the loop.
pub fn classify(status: EItemUpdateStatus) -> (class: StatusClass)
    ensures
        class == classify_spec(status),
{
    match status {
        EItemUpdateStatus::Invalid => StatusClass::Invalid,
        EItemUpdateStatus::CommittingChanges => StatusClass::Terminal,
        _ => StatusClass::InProgress,
    }
}

/// Whether a sample ends the loop.
pub open spec fn is_final(sample: UpdateProgress) -> bool {
    classify_spec(sample.status) != StatusClass::InProgress
}

/// What one attempt to read the progress gave.
#[derive(Clone, Copy, Debug, PartialEq, Eq, Structural)]
pub enum Reading {
    /// The progress was read.
    Sample(UpdateProgress),
    /// The read failed for the moment.
    Failed,
}

/// What the loop does after a reading.
#[derive(Clone, Copy, Debug, PartialEq, Eq, Structural)]
pub struct WatchStep {
    /// The sample to hand to the subscriber, if any.
    pub deliver: Option<UpdateProgress>,
    /// The number of milliseconds to sleep before the next reading, or
    /// `None` where the loop ends.
    pub sleep_ms: Option<u64>,
}

/// The sample that stands for a progress that can no longer be read.
pub open spec fn lost_sample() -> UpdateProgress {
    UpdateProgress { status: EItemUpdateStatus::Invalid, progress: 0, total: 0 }
}

/// The mathematical state of a watcher.
pub struct WatchState {
    /// The number of milliseconds between two readings.
    pub interval_ms: u64,
    /// After how many failed reads in a row the progress counts as lost; zero
    /// where a failed read is retried without end.
    pub failure_limit: u32,
    /// The number of reads that have failed in a row.
    pub failures: u32,
    /// Whether the loop goes on.
    pub active: bool,
}

impl WatchState {
    /// The state of a watcher before its first reading.
    pub open spec fn started(interval_ms: Option<u32>, failure_limit: u32) -> WatchState {
        WatchState {
            interval_ms: match interval_ms {
                Some(ms) => ms as u64,
                None => DEFAULT_INTERVAL_MS as u64,
            },
            failure_limit,
            failures: 0,
            active: true,
        }
    }

    /// The state of a watcher that has ended.
    pub open spec fn ended(self) -> WatchState {
        WatchState { failures: 0, active: false, ..self }
    }

    /// Whether one more failed read makes the progress count as lost.
    pub open spec fn gives_up(self) -> bool {
        self.failure_limit > 0 && self.failures + 1 >= self.failure_limit
    }

    /// The state after `reading`.
    pub open spec fn step(self, reading: Reading) -> WatchState {
        if !self.active {
            self
        } else {
            match reading {
                Reading::Sample(sample) => if is_final(sample) {
                    self.ended()
                } else {
                    WatchState { failures: 0, ..self }
                },
                Reading::Failed => if self.gives_up() {
                    self.ended()
                } else if self.failure_limit > 0 {
                    WatchState { failures: (self.failures + 1) as u32, ..self }
                } else {
                    self
                },
            }
        }
    }

    /// What the loop does after `reading`. A watcher that has ended hands on
    /// nothing. A sample is handed on as it is, and the loop goes on exactly
    /// if the sample is not final. A failed read hands on nothing and is
    /// retried after the interval, unless it is the last of as many in a row
    /// as the limit allows: then the subscriber is told that the progress is
    /// lost, and the loop ends.
    pub open spec fn output(self, reading: Reading) -> WatchStep {
        if !self.active {
            WatchStep { deliver: None, sleep_ms: None }
        } else {
            match reading {
                Reading::Sample(sample) => WatchStep {
                    deliver: Some(sample),
                    sleep_ms: if is_final(sample) {
                        None
                    } else {
                        Some(self.interval_ms)
                    },
                },
                Reading::Failed => if self.gives_up() {
                    WatchStep { deliver: Some(lost_sample()), sleep_ms: None }
                } else {
                    WatchStep { deliver: None, sleep_ms: Some(self.interval_ms) }
                },
            }
        }
    }

    /// The state after all of `readings`, in order.
    pub open spec fn run(self, readings: Seq<Reading>) -> WatchState
        decreases readings.len(),
    {
        if readings.len() == 0 {
            self
        } else {
            self.run(readings.drop_last()).step(readings.last())
        }
    }

    /// The samples that the subscriber was handed over all of `readings`, in
    /// order.
    pub open spec fn delivered(self, readings: Seq<Reading>) -> Seq<UpdateProgress>
        decreases readings.len(),
    {
        if readings.len() == 0 {
            Seq::empty()
        } else {
            let before = self.delivered(readings.drop_last());
            match self.run(readings.drop_last()).output(readings.last()).deliver {
                Some(sample) => before.push(sample),
                None => before,
            }
        }
    }
}

/// The readings that hold the given samples, none of them failed.
pub open spec fn readings_of(samples: Seq<UpdateProgress>) -> Seq<Reading> {
    samples.map_values(|sample: UpdateProgress| Reading::Sample(sample))
}

/// The loop that follows one update.
#[derive(Debug)]
pub struct ProgressWatcher {
    interval_ms: u64,
    failure_limit: u32,
    failures: u32,
    active: bool,
}

impl View for ProgressWatcher {
    type V = WatchState;

    closed spec fn view(&self) -> WatchState {
        WatchState {
            interval_ms: self.interval_ms,
            failure_limit: self.failure_limit,
            failures: self.failures,
            active: self.active,
        }
    }
}

impl ProgressWatcher {
    /// A watcher that reads every `interval_ms` milliseconds, or at the
    /// default interval, and that counts the progress as lost after
    /// `failure_limit` failed reads in a row; with a limit of zero it retries
    /// a failed read without end.
    pub fn new(interval_ms: Option<u32>, failure_limit: u32) -> (watcher: Self)
        ensures
            watcher@ == WatchState::started(interval_ms, failure_limit),
    {
        let interval_ms = match interval_ms {
            Some(ms) => ms as u64,
            None => DEFAULT_INTERVAL_MS as u64,
        };
        ProgressWatcher { interval_ms, failure_limit, failures: 0, active: true }
    }

    /// The number of milliseconds between two readings.
    pub fn interval_ms(&self) -> (ms: u64)
        ensures
            ms == self@.interval_ms,
    {
        self.interval_ms
    }

    /// Whether the loop goes on.
    pub fn is_active(&self) -> (active: bool)
        ensures
            active == self@.active,
    {
        self.active
    }

    /// Ends the loop on behalf of its owner. The loop notices with its next
    /// reading, which hands on nothing.
    pub fn stop(&mut self)
        ensures
            final(self)@ == old(self)@.ended(),
    {
        self.failures = 0;
        self.active = false;
    }

    /// Takes in one reading and says what the loop does with it.
    pub fn poll(&mut self, reading: Reading) -> (step: WatchStep)
        ensures
            final(self)@ == old(self)@.step(reading),
            step == old(self)@.output(reading),
    {
        if !self.active {
            return WatchStep { deliver: None, sleep_ms: None };
        }
        match reading {
            Reading::Sample(sample) => {
                self.failures = 0;
                match classify(sample.status) {
                    StatusClass::InProgress => WatchStep {
                        deliver: Some(sample),
                        sleep_ms: Some(self.interval_ms),
                    },
                    _ => {
                        self.active = false;
                        WatchStep { deliver: Some(sample), sleep_ms: None }
                    },
                }
            },
            Reading::Failed => {
                if self.failure_limit == 0 {
                    WatchStep { deliver: None, sleep_ms: Some(self.interval_ms) }
                } else if self.failures >= self.failure_limit - 1 {
                    self.failures = 0;
                    self.active = false;
                    WatchStep {
                        deliver: Some(
                            UpdateProgress {
                                status: EItemUpdateStatus::Invalid,
                                progress: 0,
                                total: 0,
                            },
                        ),
                        sleep_ms: None,
                    }
                } else {
                    self.failures = self.failures + 1;
                    WatchStep { deliver: None, sleep_ms: Some(self.interval_ms) }
                }
            },
        }
    }
}

/// A watcher that has ended, by a final sample or by its owner, stays ended
/// and hands on nothing, however often it is polled.
pub proof fn lemma_ended_watcher_is_silent(state: WatchState, readings: Seq<Reading>)
    requires
        !state.active,
    ensures
        state.run(readings) == state,
        state.delivered(readings) == Seq::<UpdateProgress>::empty(),
    decreases readings.len(),
{
    if readings.len() > 0 {
        lemma_ended_watcher_is_silent(state, readings.drop_last());
    }
}

/// As long as no sample is final, every sample is handed on, in the order
/// in which it was read, and the loop goes on.
pub proof fn lemma_in_progress_samples_all_delivered(
    state: WatchState,
    samples: Seq<UpdateProgress>,
)
    requires
        state.active,
        forall|i: int| 0 <= i < samples.len() ==> !is_final(#[trigger] samples[i]),
    ensures
        state.delivered(readings_of(samples)) == samples,
        state.run(readings_of(samples)).active,
        state.run(readings_of(samples)).interval_ms == state.interval_ms,
    decreases samples.len(),
{
    if samples.len() > 0 {
        let before = samples.drop_last();
        assert(readings_of(samples).drop_last() == readings_of(before));
        lemma_in_progress_samples_all_delivered(state, before);
        assert(before.push(samples.last()) == samples);
    }
}

/// The subscriber is handed the samples up to and including the first final
/// one, and none after it: with that sample the loop has ended.
pub proof fn lemma_delivers_through_first_final(
    state: WatchState,
    samples: Seq<UpdateProgress>,
    first: int,
)
    requires
        state.active,
        0 <= first < samples.len(),
        is_final(samples[first]),
        forall|i: int| 0 <= i < first ==> !is_final(#[trigger] samples[i]),
    ensures
        state.delivered(readings_of(samples)) == samples.take(first + 1),
        !state.run(readings_of(samples)).active,
    decreases samples.len(),
{
    let before = samples.drop_last();
    assert(readings_of(samples).drop_last() == readings_of(before));
    if first == samples.len() - 1 {
        lemma_in_progress_samples_all_delivered(state, before);
        assert(before.push(samples.last()) == samples.take(first + 1));
    } else {
        lemma_delivers_through_first_final(state, before, first);
        assert(before.take(first + 1) == samples.take(first + 1));
    }
}

/// As many failed reads as `count`, one after the other.
pub open spec fn failed_reads(count: nat) -> Seq<Reading> {
    Seq::new(count, |i: int| Reading::Failed)
}

/// Reads that fail in a row hand on nothing and leave the loop running as
/// long as they stay under the limit, or where there is no limit. The read
/// that reaches the limit ends the loop, and the subscriber is told once
/// that the progress is lost.
pub proof fn lemma_failed_reads_in_a_row(state: WatchState, count: nat)
    requires
        state.active,
        state.failures == 0,
    ensures
        state.failure_limit == 0 || count < state.failure_limit ==> {
            &&& state.delivered(failed_reads(count)) == Seq::<UpdateProgress>::empty()
            &&& state.run(failed_reads(count)).active
        },
        state.failure_limit > 0 && count >= state.failure_limit ==> {
            &&& state.delivered(failed_reads(count)) == seq![lost_sample()]
            &&& !state.run(failed_reads(count)).active
        },
        state.run(failed_reads(count)).failure_limit == state.failure_limit,
        state.failure_limit > 0 && count < state.failure_limit ==> state.run(
            failed_reads(count),
        ).failures == count,
        state.failure_limit == 0 ==> state.run(failed_reads(count)).failures == 0,
    decreases count,
{
    if count > 0 {
        let fewer = (count - 1) as nat;
        assert(failed_reads(count).drop_last() == failed_reads(fewer));
        lemma_failed_reads_in_a_row(state, fewer);
        if state.failure_limit > 0 && count == state.failure_limit {
            assert(Seq::<UpdateProgress>::empty().push(lost_sample()) == seq![lost_sample()]);
        }
    }
}

} // verus!
