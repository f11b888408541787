//! The frame pacer: the stages of a pipeline, the refresh predictor, and the
//! wait that ends a frame.

use crate::error::PacerError;
use crate::history::{
    keep_last,
    lemma_largest_is_maximum,
    push_bounded,
    record_sample,
    FORECAST_WINDOW,
    HISTORY_CAPACITY,
};
use crate::host::{
    default_sleeper,
    duration_as_nanos,
    instant_elapsed,
    instant_now,
    sleep_nanos,
};
use crate::monitor::{
    is_valid_frequency,
    Monitor,
    MonitorModel,
    LONGEST_INTERVAL,
};
use crate::stage::{FrameStage, FrameStageStats, StageModel};
use crate::timestamp::ComparativeTimestamp;
use spin_sleep::SpinSleeper;
use std::collections::VecDeque;
use std::time::Instant;
use vstd::prelude::*;

verus! {

/// What the host may switch while the pacer runs.
#[derive(Debug, Clone, Copy)]
pub struct Options {
    /// Whether `wait_for_frame` blocks. Switched off, it still records the
    /// wait that it would have made.
    pub enabled: bool,
}

impl Default for Options {
    fn default() -> (options: Self)
        ensures
            options.enabled,
    {
        Options { enabled: true }
    }
}

/// The sum of what every stage is expected to take: the stages of a frame
/// run one after the other.
pub open spec fn total_forecast(stages: Seq<StageModel>) -> nat
    decreases stages.len(),
{
    if stages.len() == 0 {
        0
    } else {
        total_forecast(stages.drop_last()) + stages.last().forecast()
    }
}

/// What an `Internals` stands for.
pub struct InternalsModel {
    /// The reading of the clock that the pacer counts its time from.
    pub reference_instant: Instant,
    /// The stages of the pipeline, in the order of their registration.
    pub frame_stages: Seq<StageModel>,
    /// The most recent waits, the oldest first.
    pub sleep_history: Seq<u64>,
    /// The refresh predictor.
    pub monitor: MonitorModel,
}

impl InternalsModel {
    /// Every history is within its capacity and the predictor holds a rate
    /// that it accepts.
    pub open spec fn wf(self) -> bool {
        &&& self.sleep_history.len() <= HISTORY_CAPACITY
        &&& self.monitor.wf()
        &&& forall|i: int|
            0 <= i < self.frame_stages.len() ==> (#[trigger] self.frame_stages[i]).wf()
    }

    /// The state with one more stage, which never ran.
    pub open spec fn with_stage(self) -> InternalsModel {
        InternalsModel { frame_stages: self.frame_stages.push(StageModel::fresh()), ..self }
    }

    /// The state after a new refresh rate was offered.
    pub open spec fn with_frequency(self, reported_frequency: u32) -> Result<
        InternalsModel,
        PacerError,
    > {
        match self.monitor.with_frequency(reported_frequency) {
            Ok(monitor) => Ok(InternalsModel { monitor, ..self }),
            Err(refusal) => Err(refusal),
        }
    }

    /// The state after the stage at `slot` was begun at `elapsed` after the
    /// origin of its handle. Refused with `UsageError` where no stage has
    /// that slot, with `ClockAnomaly` where the timestamp could not be
    /// measured from the origin, and else as the stage refuses.
    pub open spec fn begin_stage(self, slot: nat, elapsed: Option<u64>) -> Result<
        InternalsModel,
        PacerError,
    > {
        if slot >= self.frame_stages.len() {
            Err(PacerError::UsageError)
        } else {
            match elapsed {
                None => Err(PacerError::ClockAnomaly),
                Some(value) => match self.frame_stages[slot as int].begin(value) {
                    Ok(stage) => Ok(
                        InternalsModel {
                            frame_stages: self.frame_stages.update(slot as int, stage),
                            ..self
                        },
                    ),
                    Err(refusal) => Err(refusal),
                },
            }
        }
    }

    /// The state after the stage at `slot` was ended at `elapsed` after the
    /// origin of its handle. Refused as `begin_stage` is.
    pub open spec fn end_stage(self, slot: nat, elapsed: Option<u64>) -> Result<
        InternalsModel,
        PacerError,
    > {
        if slot >= self.frame_stages.len() {
            Err(PacerError::UsageError)
        } else {
            match elapsed {
                None => Err(PacerError::ClockAnomaly),
                Some(value) => match self.frame_stages[slot as int].end(value) {
                    Ok(stage) => Ok(
                        InternalsModel {
                            frame_stages: self.frame_stages.update(slot as int, stage),
                            ..self
                        },
                    ),
                    Err(refusal) => Err(refusal),
                },
            }
        }
    }

    /// The wait that ends a frame at `now`, counted from the reference
    /// instant: the one after which the work that all stages are expected
    /// to take ends on a refresh boundary.
    pub open spec fn frame_wait(self, now: nat) -> nat {
        self.monitor.wait(total_forecast(self.frame_stages), now)
    }

    /// The state after a frame was ended at `now`: its wait is recorded.
    pub open spec fn after_frame(self, now: nat) -> InternalsModel {
        InternalsModel {
            sleep_history: push_bounded(self.sleep_history, self.frame_wait(now) as u64),
            ..self
        }
    }
}

/// The state of a pacer, open to be read.
pub struct Internals {
    reference_instant: Instant,
    frame_stages: Vec<FrameStageStats>,
    sleep_history: VecDeque<u64>,
    monitor: Monitor,
}

impl View for Internals {
    type V = InternalsModel;

    closed spec fn view(&self) -> InternalsModel {
        InternalsModel {
            reference_instant: self.reference_instant,
            frame_stages: self.frame_stages@.map_values(|stats: FrameStageStats| stats@),
            sleep_history: self.sleep_history@,
            monitor: self.monitor@,
        }
    }
}

/// No stage is expected to take longer than a `u64` counts, so the sum over
/// `stages` is at most that many times the largest `u64`.
pub proof fn lemma_total_forecast_bound(stages: Seq<StageModel>)
    ensures
        total_forecast(stages) <= stages.len() * u64::MAX,
    decreases stages.len(),
{
    if stages.len() > 0 {
        lemma_total_forecast_bound(stages.drop_last());
        lemma_largest_is_maximum(
            keep_last(stages.last().duration_history, FORECAST_WINDOW as nat),
        );
        assert((stages.len() - 1) * u64::MAX + u64::MAX == stages.len() * u64::MAX)
            by (nonlinear_arith);
    }
}

/// A run of an idle stage that is begun at `begun` and ended at `ended`,
/// both counted by a clock that stood at `base` when the stage was
/// registered and neither before the other, is accepted, leaves the stage
/// idle, and adds `ended - begun` to its history. No other stage and nothing
/// else of the pacer changes.
pub proof fn law_run_records_its_length(
    internals: InternalsModel,
    slot: nat,
    base: u64,
    begun: u64,
    ended: u64,
)
    requires
        internals.wf(),
        slot < internals.frame_stages.len(),
        internals.frame_stages[slot as int].pending_start is None,
        base <= begun <= ended,
    ensures
        internals.begin_stage(slot, u64::gap(base, begun)) matches Ok(running)
            && running.end_stage(slot, u64::gap(base, ended)) matches Ok(idle) && idle.wf()
            && idle == (InternalsModel {
            frame_stages: internals.frame_stages.update(
                slot as int,
                StageModel {
                    pending_start: None,
                    duration_history: push_bounded(
                        internals.frame_stages[slot as int].duration_history,
                        (ended - begun) as u64,
                    ),
                },
            ),
            ..internals
        }),
{
    let stage = internals.frame_stages[slot as int];
    let running = internals.begin_stage(slot, u64::gap(base, begun))->Ok_0;
    let idle = running.end_stage(slot, u64::gap(base, ended))->Ok_0;
    let length = (ended - begun) as u64;
    let stayed = StageModel {
        pending_start: None,
        duration_history: push_bounded(stage.duration_history, length),
    };
    assert(idle.frame_stages =~= internals.frame_stages.update(slot as int, stayed));
    assert forall|i: int| 0 <= i < idle.frame_stages.len() implies (
    #[trigger] idle.frame_stages[i]).wf() by {
        if i != slot {
            assert(idle.frame_stages[i] == internals.frame_stages[i]);
        }
    }
}

/// The sum of the forecasts depends on the histories of the stages alone.
pub proof fn lemma_total_forecast_of_histories(left: Seq<StageModel>, right: Seq<StageModel>)
    requires
        left.len() == right.len(),
        forall|i: int|
            0 <= i < left.len() ==> (#[trigger] left[i]).duration_history
                == right[i].duration_history,
    ensures
        total_forecast(left) == total_forecast(right),
    decreases left.len(),
{
    if left.len() > 0 {
        assert(left.last().duration_history == right.last().duration_history);
        let left_front = left.drop_last();
        let right_front = right.drop_last();
        assert forall|i: int| 0 <= i < left_front.len() implies (
        #[trigger] left_front[i]).duration_history == right_front[i].duration_history by {
            assert(left_front[i] == left[i]);
            assert(right_front[i] == right[i]);
        }
        lemma_total_forecast_of_histories(left_front, right_front);
    }
}

/// Forecasts change only where a run ends. Registering a stage adds a
/// forecast of zero, beginning a run and ending a frame leave every forecast
/// as it was, and so the wait that is planned for one moment is the same
/// however often it is asked for in between.
pub proof fn law_planned_wait_steady_until_end(
    internals: InternalsModel,
    slot: nat,
    elapsed: Option<u64>,
    now: nat,
)
    ensures
        total_forecast(internals.with_stage().frame_stages) == total_forecast(
            internals.frame_stages,
        ),
        internals.begin_stage(slot, elapsed) matches Ok(running) ==> total_forecast(
            running.frame_stages,
        ) == total_forecast(internals.frame_stages) && running.frame_wait(now)
            == internals.frame_wait(now),
        internals.after_frame(now).frame_stages == internals.frame_stages,
        internals.after_frame(now).frame_wait(now) == internals.frame_wait(now),
{
    let grown = internals.with_stage().frame_stages;
    assert(grown.drop_last() =~= internals.frame_stages);
    assert(keep_last(Seq::<u64>::empty(), FORECAST_WINDOW as nat) =~= Seq::<u64>::empty());
    assert(grown.last().forecast() == 0);
    if let Ok(running) = internals.begin_stage(slot, elapsed) {
        lemma_total_forecast_of_histories(running.frame_stages, internals.frame_stages);
    }
}

impl Internals {
    /// The state of a pacer without stages and without a recorded wait,
    /// which counts its time from the moment of the call.
    pub fn new(monitor: Monitor) -> (internals: Self)
        ensures
            internals@.frame_stages == Seq::<StageModel>::empty(),
            internals@.sleep_history == Seq::<u64>::empty(),
            internals@.monitor == monitor@,
    {
        let internals = Internals {
            reference_instant: instant_now(),
            frame_stages: Vec::new(),
            sleep_history: VecDeque::new(),
            monitor,
        };
        assert(internals@.frame_stages =~= Seq::<StageModel>::empty());
        internals
    }

    /// The reading of the clock that the pacer counts its time from.
    pub fn reference_instant(&self) -> (origin: Instant)
        ensures
            origin == self@.reference_instant,
    {
        self.reference_instant
    }

    /// The stages of the pipeline, in the order of their registration.
    pub fn frame_stages(&self) -> (stages: &Vec<FrameStageStats>)
        ensures
            stages@.len() == self@.frame_stages.len(),
            forall|i: int|
                0 <= i < stages@.len() ==> (#[trigger] stages@[i])@ == self@.frame_stages[i],
    {
        &self.frame_stages
    }

    /// The most recent waits, the oldest first.
    pub fn sleep_history(&self) -> (history: &VecDeque<u64>)
        ensures
            history@ == self@.sleep_history,
    {
        &self.sleep_history
    }

    /// The refresh predictor.
    pub fn monitor(&self) -> (monitor: &Monitor)
        ensures
            monitor@ == self@.monitor,
    {
        &self.monitor
    }

    /// The time that the next frame is expected to take: the sum of the
    /// forecasts of all stages.
    pub fn total_forecast(&self) -> (total: u128)
        ensures
            total == total_forecast(self@.frame_stages),
    {
        let count: usize = self.frame_stages.len();
        let mut total: u128 = 0;
        let mut at: usize = 0;
        while at < count
            invariant
                count == self.frame_stages@.len(),
                at <= count,
                total == total_forecast(self@.frame_stages.subrange(0, at as int)),
            decreases count - at,
        {
            let estimate: u64 = self.frame_stages[at].estimate_time_for_completion();
            proof {
                let grown = self@.frame_stages.subrange(0, at + 1);
                assert(grown.drop_last() =~= self@.frame_stages.subrange(0, at as int));
                assert(grown.last() == self.frame_stages@[at as int]@);
                lemma_total_forecast_bound(grown);
                assert(grown.len() * u64::MAX <= usize::MAX * u64::MAX) by (nonlinear_arith)
                    requires
                        grown.len() <= usize::MAX,
                ;
                assert(usize::MAX * u64::MAX <= u64::MAX * u64::MAX) by (nonlinear_arith)
                    requires
                        usize::MAX <= u64::MAX,
                ;
                assert(u64::MAX * u64::MAX < u128::MAX) by (nonlinear_arith);
            }
            total = total + estimate as u128;
            at = at + 1;
        }
        assert(self@.frame_stages.subrange(0, count as int) =~= self@.frame_stages);
        total
    }
}

/// What a `FramePacer` stands for.
pub struct PacerModel {
    /// What the host may switch.
    pub options: Options,
    /// The stages, the recorded waits and the refresh predictor.
    pub internals: InternalsModel,
    /// The sleeper that the waits are made with.
    pub sleeper: SpinSleeper,
}

impl PacerModel {
    /// The state that it holds is well formed.
    pub open spec fn wf(self) -> bool {
        self.internals.wf()
    }

    /// The same pacer over another state.
    pub open spec fn over(self, internals: InternalsModel) -> PacerModel {
        PacerModel { internals, ..self }
    }
}

/// Paces the frames of a render loop to the refresh of a display.
pub struct FramePacer {
    /// What the host may switch while the pacer runs.
    pub options: Options,
    internals: Internals,
    sleeper: SpinSleeper,
}

impl View for FramePacer {
    type V = PacerModel;

    closed spec fn view(&self) -> PacerModel {
        PacerModel { options: self.options, internals: self.internals@, sleeper: self.sleeper }
    }
}

impl FramePacer {
    /// A pacer for a display that reports `reported_frequency` millihertz.
    /// It has no stages yet, paces, and takes the moment of the call for a
    /// refresh boundary. A rate that the predictor does not accept is
    /// refused with `InvalidConfiguration`.
    pub fn new(reported_frequency: u32) -> (made: Result<Self, PacerError>)
        ensures
            is_valid_frequency(reported_frequency) ==> {
                &&& made is Ok
                &&& made->Ok_0@.wf()
                &&& made->Ok_0@.options.enabled
                &&& made->Ok_0@.internals.frame_stages == Seq::<StageModel>::empty()
                &&& made->Ok_0@.internals.sleep_history == Seq::<u64>::empty()
                &&& made->Ok_0@.internals.monitor == (MonitorModel {
                    reported_frequency,
                    last_reported_timestamp: 0,
                })
            },
            !is_valid_frequency(reported_frequency) ==> made is Err && made->Err_0
                == PacerError::InvalidConfiguration,
    {
        match Monitor::new(reported_frequency, 0) {
            Ok(monitor) => Ok(
                FramePacer {
                    options: Options::default(),
                    internals: Internals::new(monitor),
                    sleeper: default_sleeper(),
                },
            ),
            Err(refusal) => Err(refusal),
        }
    }

    /// Registers a stage whose timestamps will be measured from `base`, and
    /// hands out its handle. The stage never ran and takes the next free
    /// slot.
    pub fn create_frame_stage<T>(&mut self, base: T) -> (handle: FrameStage<T>) where
        T: ComparativeTimestamp,

        ensures
            handle.slot() == old(self)@.internals.frame_stages.len(),
            handle.origin() == base,
            final(self)@ == old(self)@.over(old(self)@.internals.with_stage()),
            old(self)@.wf() ==> final(self)@.wf(),
    {
        let index: usize = self.internals.frame_stages.len();
        self.internals.frame_stages.push(FrameStageStats::new());
        assert(self.internals@.frame_stages =~= old(self)@.internals.with_stage().frame_stages);
        FrameStage::new(index, base)
    }

    /// Replaces the reported refresh rate, in millihertz. A rate that the
    /// predictor does not accept is refused with `InvalidConfiguration`, and
    /// the pacer keeps the rate it had.
    pub fn set_monitor_frequency(&mut self, frequency: u32) -> (done: Result<(), PacerError>)
        ensures
            match old(self)@.internals.with_frequency(frequency) {
                Ok(next) => done is Ok && final(self)@ == old(self)@.over(next),
                Err(refusal) => done == Err::<(), PacerError>(refusal) && final(self)@ == old(
                    self,
                )@,
            },
            !is_valid_frequency(frequency) ==> done == Err::<(), PacerError>(
                PacerError::InvalidConfiguration,
            ) && final(self)@ == old(self)@,
            old(self)@.wf() ==> final(self)@.wf(),
    {
        self.internals.monitor.set_frequency(frequency)
    }

    /// The state of the pacer, to be read.
    pub fn internals(&self) -> (internals: &Internals)
        ensures
            internals@ == self@.internals,
    {
        &self.internals
    }

    /// How long the next run of the stage `stage_id` is expected to take.
    /// Refused with `UsageError` where the pacer has no stage in the slot of
    /// the handle.
    pub fn forecast<T>(&self, stage_id: FrameStage<T>) -> (estimate: Result<u64, PacerError>) where
        T: ComparativeTimestamp,

        ensures
            stage_id.slot() < self@.internals.frame_stages.len() ==> estimate == Ok::<
                u64,
                PacerError,
            >(self@.internals.frame_stages[stage_id.slot() as int].forecast() as u64),
            stage_id.slot() >= self@.internals.frame_stages.len() ==> estimate == Err::<
                u64,
                PacerError,
            >(PacerError::UsageError),
    {
        let index: usize = stage_id.index();
        if index < self.internals.frame_stages.len() {
            Ok(self.internals.frame_stages[index].estimate_time_for_completion())
        } else {
            Err(PacerError::UsageError)
        }
    }

    /// Marks the start of a run of the stage `stage_id` at `now`, measured
    /// from the base of the handle. Refused with `UsageError` where the
    /// pacer has no stage in the slot of the handle or the stage is running,
    /// and with `ClockAnomaly` where `now` cannot be measured from the base.
    pub fn begin_frame_stage<T>(&mut self, stage_id: FrameStage<T>, now: T) -> (done: Result<
        (),
        PacerError,
    >) where T: ComparativeTimestamp
        ensures
            match old(self)@.internals.begin_stage(
                stage_id.slot(),
                T::gap(stage_id.origin(), now),
            ) {
                Ok(next) => done is Ok && final(self)@ == old(self)@.over(next),
                Err(refusal) => done == Err::<(), PacerError>(refusal) && final(self)@ == old(
                    self,
                )@,
            },
            old(self)@.wf() ==> final(self)@.wf(),
    {
        let index: usize = stage_id.index();
        if index >= self.internals.frame_stages.len() {
            return Err(PacerError::UsageError);
        }
        match T::difference(stage_id.base(), now) {
            None => Err(PacerError::ClockAnomaly),
            Some(value) => {
                let done = self.internals.frame_stages[index].begin(value);
                proof {
                    if done is Ok {
                        assert(self.internals@.frame_stages =~= old(
                            self,
                        )@.internals.frame_stages.update(
                            index as int,
                            self.internals.frame_stages@[index as int]@,
                        ));
                    } else {
                        assert(self.internals@.frame_stages =~= old(self)@.internals.frame_stages);
                    }
                }
                done
            },
        }
    }

    /// Marks the end of the run of the stage `stage_id` at `now`, measured
    /// from the base of the handle, and records how long the run took.
    /// Refused with `UsageError` where the pacer has no stage in the slot of
    /// the handle or the stage is idle, and with `ClockAnomaly` where `now`
    /// cannot be measured from the base or lies before the start of the run.
    pub fn end_frame_stage<T>(&mut self, stage_id: FrameStage<T>, now: T) -> (done: Result<
        (),
        PacerError,
    >) where T: ComparativeTimestamp
        ensures
            match old(self)@.internals.end_stage(stage_id.slot(), T::gap(stage_id.origin(), now)) {
                Ok(next) => done is Ok && final(self)@ == old(self)@.over(next),
                Err(refusal) => done == Err::<(), PacerError>(refusal) && final(self)@ == old(
                    self,
                )@,
            },
            old(self)@.wf() ==> final(self)@.wf(),
    {
        let index: usize = stage_id.index();
        if index >= self.internals.frame_stages.len() {
            return Err(PacerError::UsageError);
        }
        match T::difference(stage_id.base(), now) {
            None => Err(PacerError::ClockAnomaly),
            Some(value) => {
                let done = self.internals.frame_stages[index].end(value);
                proof {
                    if done is Ok {
                        assert(self.internals@.frame_stages =~= old(
                            self,
                        )@.internals.frame_stages.update(
                            index as int,
                            self.internals.frame_stages@[index as int]@,
                        ));
                    } else {
                        assert(self.internals@.frame_stages =~= old(self)@.internals.frame_stages);
                    }
                }
                done
            },
        }
    }

    /// Ends a frame at `now`, in nanoseconds after the reference instant:
    /// works out the wait after which the work that all stages are expected
    /// to take ends on a refresh boundary, records it, and returns it where
    /// the pacer is to block, and nothing where pacing is switched off.
    pub fn plan_frame(&mut self, now: u128) -> (sleep: Option<u64>)
        ensures
            final(self)@ == old(self)@.over(old(self)@.internals.after_frame(now as nat)),
            sleep == if old(self)@.options.enabled {
                Some(old(self)@.internals.frame_wait(now as nat) as u64)
            } else {
                None
            },
            0 < old(self)@.internals.frame_wait(now as nat) <= LONGEST_INTERVAL,
            old(self)@.wf() ==> final(self)@.wf(),
    {
        let next_frame_pipeline_duration: u128 = self.internals.total_forecast();
        let sleep_duration: u64 = self.internals.monitor.duration_until_next_hittable_timestamp(
            next_frame_pipeline_duration,
            now,
        );
        record_sample(&mut self.internals.sleep_history, sleep_duration);
        if self.options.enabled {
            Some(sleep_duration)
        } else {
            None
        }
    }

    /// Ends a frame now: reads the clock, plans the frame for that moment as
    /// `plan_frame` does, and blocks for the wait unless pacing is switched
    /// off.
    pub fn wait_for_frame(&mut self)
        ensures
            exists|now: nat| final(self)@ == old(self)@.over(
                #[trigger] old(self)@.internals.after_frame(now),
            ),
            old(self)@.wf() ==> final(self)@.wf(),
    {
        let now: u128 = duration_as_nanos(instant_elapsed(&self.internals.reference_instant));
        match self.plan_frame(now) {
            Some(sleep_duration) => {
                sleep_nanos(&self.sleeper, sleep_duration);
            },
            None => {},
        }
        assert(self@ == old(self)@.over(old(self)@.internals.after_frame(now as nat)));
    }
}

} // verus!
