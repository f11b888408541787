//! Pipeline stages: the handle that names one, and the record of how long
//! its runs took.

use crate::error::PacerError;
use crate::history::{
    forecast_of,
    keep_last,
    largest,
    lemma_keep_last_push,
    lemma_keep_last_twice,
    lemma_largest_is_maximum,
    lemma_largest_of_tail,
    push_bounded,
    recent_maximum,
    record_sample,
    FORECAST_WINDOW,
    HISTORY_CAPACITY,
};
use crate::timestamp::ComparativeTimestamp;
use std::collections::VecDeque;
use vstd::prelude::*;

verus! {

/// The handle of one pipeline stage of one pacer.
#[derive(Debug, Copy, Clone, PartialEq, Eq)]
pub struct FrameStage<T: ComparativeTimestamp> {
    index: usize,
    base: T,
}

impl<T: ComparativeTimestamp> FrameStage<T> {
    /// The place of the stage among the stages of its pacer.
    pub closed spec fn slot(self) -> nat {
        self.index as nat
    }

    /// The timestamp that the timestamps of the stage are measured from.
    pub closed spec fn origin(self) -> T {
        self.base
    }

    /// A handle for the stage at `index` whose timestamps are measured from
    /// `base`. Only a pacer makes handles.
    pub(crate) fn new(index: usize, base: T) -> (handle: Self)
        ensures
            handle.slot() == index,
            handle.origin() == base,
    {
        FrameStage { index, base }
    }

    /// The place of the stage among the stages of its pacer.
    pub fn index(&self) -> (index: usize)
        ensures
            index == self.slot(),
    {
        self.index
    }

    /// The timestamp that the timestamps of the stage are measured from.
    pub fn base(&self) -> (base: T)
        ensures
            base == self.origin(),
    {
        self.base
    }
}

/// What a `FrameStageStats` stands for.
pub struct StageModel {
    /// When the run in progress began, and nothing while the stage is idle.
    pub pending_start: Option<u64>,
    /// How long the most recent runs took, the oldest first.
    pub duration_history: Seq<u64>,
}

impl StageModel {
    /// The history is within its capacity.
    pub open spec fn wf(self) -> bool {
        self.duration_history.len() <= HISTORY_CAPACITY
    }

    /// A stage that never ran.
    pub open spec fn fresh() -> StageModel {
        StageModel { pending_start: None, duration_history: Seq::empty() }
    }

    /// The stage after a run was begun at `value`: refused while a run is
    /// in progress.
    pub open spec fn begin(self, value: u64) -> Result<StageModel, PacerError> {
        if self.pending_start is Some {
            Err(PacerError::UsageError)
        } else {
            Ok(StageModel { pending_start: Some(value), ..self })
        }
    }

    /// The stage after its run was ended at `value`: refused while no run is
    /// in progress, and where `value` lies before the start of the run.
    pub open spec fn end(self, value: u64) -> Result<StageModel, PacerError> {
        match self.pending_start {
            None => Err(PacerError::UsageError),
            Some(start) => if value < start {
                Err(PacerError::ClockAnomaly)
            } else {
                Ok(
                    StageModel {
                        pending_start: None,
                        duration_history: push_bounded(
                            self.duration_history,
                            (value - start) as u64,
                        ),
                    },
                )
            },
        }
    }

    /// How long the next run is expected to take: as long as the longest of
    /// the last `FORECAST_WINDOW` runs.
    pub open spec fn forecast(self) -> nat {
        forecast_of(self.duration_history)
    }

    /// The stage after one run, begun at `run.0` and ended at `run.1`. A
    /// refused step leaves the stage as it found it.
    pub open spec fn after_run(self, run: (u64, u64)) -> StageModel {
        match self.begin(run.0) {
            Ok(running) => match running.end(run.1) {
                Ok(idle) => idle,
                Err(_) => running,
            },
            Err(_) => self,
        }
    }

    /// The stage after the runs of `runs`, one after the other.
    pub open spec fn after_runs(self, runs: Seq<(u64, u64)>) -> StageModel
        decreases runs.len(),
    {
        if runs.len() == 0 {
            self
        } else {
            self.after_runs(runs.drop_last()).after_run(runs.last())
        }
    }
}

/// How long each of `runs` took, a run being the pair of the timestamps at
/// which it began and ended.
pub open spec fn run_lengths(runs: Seq<(u64, u64)>) -> Seq<u64> {
    Seq::new(runs.len(), |i: int| (runs[i].1 - runs[i].0) as u64)
}

/// After any number of runs of an idle stage, none of which ended before it
/// began, the stage is idle again, holds the most recent of all the run
/// lengths it ever observed, and its forecast is the largest of the last
/// `FORECAST_WINDOW` of them, or of all where they are fewer; so it is never
/// above the largest run length observed.
pub proof fn law_forecast_is_recent_maximum(stage: StageModel, runs: Seq<(u64, u64)>)
    requires
        stage.wf(),
        stage.pending_start is None,
        forall|i: int| 0 <= i < runs.len() ==> (#[trigger] runs[i]).0 <= runs[i].1,
    ensures
        stage.after_runs(runs).pending_start is None,
        stage.after_runs(runs).wf(),
        stage.after_runs(runs).duration_history == keep_last(
            stage.duration_history + run_lengths(runs),
            HISTORY_CAPACITY as nat,
        ),
        stage.after_runs(runs).forecast() == largest(
            keep_last(stage.duration_history + run_lengths(runs), FORECAST_WINDOW as nat),
        ),
        stage.after_runs(runs).forecast() <= largest(stage.duration_history + run_lengths(runs)),
    decreases runs.len(),
{
    let observed = stage.duration_history + run_lengths(runs);
    if runs.len() == 0 {
        assert(observed =~= stage.duration_history);
    } else {
        let earlier = runs.drop_last();
        assert forall|i: int| 0 <= i < earlier.len() implies (#[trigger] earlier[i]).0
            <= earlier[i].1 by {
            assert(earlier[i] == runs[i]);
        }
        law_forecast_is_recent_maximum(stage, earlier);
        let before = stage.duration_history + run_lengths(earlier);
        let length = (runs.last().1 - runs.last().0) as u64;
        assert(observed =~= before.push(length));
        lemma_keep_last_push(before, HISTORY_CAPACITY as nat, length);
    }
    lemma_keep_last_twice(observed, HISTORY_CAPACITY as nat, FORECAST_WINDOW as nat);
    lemma_largest_of_tail(observed, FORECAST_WINDOW as nat);
}

/// The forecast of a stage is a function of its history alone, and the
/// history changes only where a run ends: beginning a run leaves both as
/// they were. So a forecast that is asked for again, with no run ended in
/// between, is the same.
pub proof fn law_forecast_steady_until_end(stage: StageModel, value: u64)
    ensures
        stage.forecast() == forecast_of(stage.duration_history),
        stage.begin(value) matches Ok(running) ==> running.duration_history
            == stage.duration_history && running.forecast() == stage.forecast(),
{
}

/// Every step of a stage keeps its history within the capacity, and the end
/// of a run brings it there.
pub proof fn lemma_stage_steps_keep_wf(stage: StageModel, value: u64)
    ensures
        stage.begin(value) matches Ok(running) ==> (stage.wf() ==> running.wf()),
        stage.end(value) matches Ok(idle) ==> idle.wf(),
{
}

/// The record of one pipeline stage.
pub struct FrameStageStats {
    pending_start: Option<u64>,
    duration_history: VecDeque<u64>,
}

impl View for FrameStageStats {
    type V = StageModel;

    closed spec fn view(&self) -> StageModel {
        StageModel {
            pending_start: self.pending_start,
            duration_history: self.duration_history@,
        }
    }
}

impl FrameStageStats {
    /// The record of a stage that never ran.
    pub fn new() -> (stats: Self)
        ensures
            stats@ == StageModel::fresh(),
    {
        FrameStageStats { pending_start: None, duration_history: VecDeque::new() }
    }

    /// Begins a run at `value`. Refused with `UsageError` while a run is in
    /// progress.
    pub fn begin(&mut self, value: u64) -> (done: Result<(), PacerError>)
        ensures
            match old(self)@.begin(value) {
                Ok(next) => done is Ok && final(self)@ == next,
                Err(refusal) => done == Err::<(), PacerError>(refusal) && final(self)@ == old(
                    self,
                )@,
            },
    {
        if self.pending_start.is_some() {
            Err(PacerError::UsageError)
        } else {
            self.pending_start = Some(value);
            Ok(())
        }
    }

    /// Ends the run in progress at `value` and records how long it took.
    /// Refused with `UsageError` while no run is in progress, and with
    /// `ClockAnomaly` where `value` lies before the start of the run.
    pub fn end(&mut self, value: u64) -> (done: Result<(), PacerError>)
        ensures
            match old(self)@.end(value) {
                Ok(next) => done is Ok && final(self)@ == next && next.wf(),
                Err(refusal) => done == Err::<(), PacerError>(refusal) && final(self)@ == old(
                    self,
                )@,
            },
    {
        match self.pending_start {
            None => Err(PacerError::UsageError),
            Some(start) => {
                if value < start {
                    Err(PacerError::ClockAnomaly)
                } else {
                    record_sample(&mut self.duration_history, value - start);
                    self.pending_start = None;
                    Ok(())
                }
            },
        }
    }

    /// How long the next run is expected to take: as long as the longest of
    /// the last `FORECAST_WINDOW` runs, and no time where the stage never
    /// ran.
    pub fn estimate_time_for_completion(&self) -> (estimate: u64)
        ensures
            estimate == self@.forecast(),
            self@.duration_history.len() == 0 ==> estimate == 0,
    {
        proof {
            lemma_largest_is_maximum(keep_last(self@.duration_history, FORECAST_WINDOW as nat));
        }
        recent_maximum(&self.duration_history)
    }

    /// When the run in progress began, and nothing while the stage is idle.
    pub fn pending_start(&self) -> (start: Option<u64>)
        ensures
            start == self@.pending_start,
    {
        self.pending_start
    }

    /// How long the most recent runs took, the oldest first.
    pub fn duration_history(&self) -> (history: &VecDeque<u64>)
        ensures
            history@ == self@.duration_history,
    {
        &self.duration_history
    }
}

impl Default for FrameStageStats {
    fn default() -> (stats: Self)
        ensures
            stats@ == StageModel::fresh(),
    {
        FrameStageStats::new()
    }
}

} // verus!
