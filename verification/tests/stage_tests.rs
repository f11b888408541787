use pacy::{FrameStageStats, PacerError, FORECAST_WINDOW, HISTORY_CAPACITY};

const MS: u64 = 1_000_000;

fn run(stats: &mut FrameStageStats, begun: u64, ended: u64) {
    assert_eq!(stats.begin(begun), Ok(()));
    assert_eq!(stats.end(ended), Ok(()));
}

fn recorded(stats: &FrameStageStats) -> Vec<u64> {
    stats.duration_history().iter().copied().collect()
}

#[test]
fn fresh_stage_forecasts_zero() {
    let stats = FrameStageStats::new();
    assert_eq!(stats.estimate_time_for_completion(), 0);
    assert_eq!(stats.pending_start(), None);
    assert!(stats.duration_history().is_empty());
}

#[test]
fn default_stage_is_fresh() {
    let stats = FrameStageStats::default();
    assert_eq!(stats.estimate_time_for_completion(), 0);
    assert_eq!(stats.pending_start(), None);
    assert!(stats.duration_history().is_empty());
}

#[test]
fn forecast_is_longest_of_five_runs() {
    let mut stats = FrameStageStats::new();
    let mut clock = 0;
    for length in [5 * MS, 7 * MS, 3 * MS, 9 * MS, 2 * MS] {
        run(&mut stats, clock, clock + length);
        clock += length + MS;
    }
    assert_eq!(recorded(&stats), vec![5 * MS, 7 * MS, 3 * MS, 9 * MS, 2 * MS]);
    assert_eq!(stats.estimate_time_for_completion(), 9 * MS);
}

#[test]
fn forecast_after_each_run_is_maximum_of_recent_window() {
    let lengths: [u64; 15] = [40, 12, 7, 93, 5, 5, 61, 18, 2, 30, 11, 9, 77, 1, 3];
    let mut stats = FrameStageStats::new();
    let mut clock = 1_000;
    for count in 1..=lengths.len() {
        let length = lengths[count - 1];
        run(&mut stats, clock, clock + length);
        clock += length;
        let window = &lengths[count.saturating_sub(FORECAST_WINDOW)..count];
        let expected = *window.iter().max().unwrap();
        assert_eq!(stats.estimate_time_for_completion(), expected);
    }
    assert_eq!(stats.estimate_time_for_completion(), 77);
}

#[test]
fn old_peak_leaves_the_forecast_window() {
    let mut stats = FrameStageStats::new();
    run(&mut stats, 0, 100);
    for _ in 0..9 {
        run(&mut stats, 0, 1);
        assert_eq!(stats.estimate_time_for_completion(), 100);
    }
    run(&mut stats, 0, 1);
    assert_eq!(stats.estimate_time_for_completion(), 1);
    assert_eq!(recorded(&stats).len(), 11);
    assert_eq!(recorded(&stats)[0], 100);
}

#[test]
fn forecast_never_exceeds_longest_run_observed() {
    let mut stats = FrameStageStats::new();
    let mut longest = 0;
    let mut seed: u64 = 0x2545_f491_4f6c_dd1d;
    for _ in 0..600 {
        seed ^= seed << 13;
        seed ^= seed >> 7;
        seed ^= seed << 17;
        let length = seed % 50_000;
        longest = longest.max(length);
        run(&mut stats, 10, 10 + length);
        assert!(stats.estimate_time_for_completion() <= longest);
    }
}

#[test]
fn forecast_is_steady_between_ends() {
    let mut stats = FrameStageStats::new();
    run(&mut stats, 0, 4 * MS);
    run(&mut stats, 0, 6 * MS);
    let first = stats.estimate_time_for_completion();
    let second = stats.estimate_time_for_completion();
    assert_eq!(first, 6 * MS);
    assert_eq!(second, first);
    assert_eq!(stats.begin(20 * MS), Ok(()));
    assert_eq!(stats.estimate_time_for_completion(), first);
    assert_eq!(stats.begin(21 * MS), Err(PacerError::UsageError));
    assert_eq!(stats.estimate_time_for_completion(), first);
}

#[test]
fn run_of_no_length_is_recorded() {
    let mut stats = FrameStageStats::new();
    run(&mut stats, 7, 7);
    assert_eq!(recorded(&stats), vec![0]);
    assert_eq!(stats.estimate_time_for_completion(), 0);
}

#[test]
fn begin_while_running_is_usage_error() {
    let mut stats = FrameStageStats::new();
    assert_eq!(stats.begin(5), Ok(()));
    assert_eq!(stats.begin(9), Err(PacerError::UsageError));
    assert_eq!(stats.pending_start(), Some(5));
    assert!(stats.duration_history().is_empty());
}

#[test]
fn end_while_idle_is_usage_error() {
    let mut stats = FrameStageStats::new();
    assert_eq!(stats.end(5), Err(PacerError::UsageError));
    assert_eq!(stats.pending_start(), None);
    assert!(stats.duration_history().is_empty());
    run(&mut stats, 0, 3);
    assert_eq!(stats.end(4), Err(PacerError::UsageError));
    assert_eq!(recorded(&stats), vec![3]);
}

#[test]
fn end_before_begin_is_clock_anomaly() {
    let mut stats = FrameStageStats::new();
    assert_eq!(stats.begin(10), Ok(()));
    assert_eq!(stats.end(9), Err(PacerError::ClockAnomaly));
    assert_eq!(stats.pending_start(), Some(10));
    assert!(stats.duration_history().is_empty());
    assert_eq!(stats.end(12), Ok(()));
    assert_eq!(recorded(&stats), vec![2]);
    assert_eq!(stats.pending_start(), None);
}

#[test]
fn longest_representable_run_is_recorded() {
    let mut stats = FrameStageStats::new();
    run(&mut stats, 0, u64::MAX);
    assert_eq!(stats.estimate_time_for_completion(), u64::MAX);
}

#[test]
fn history_evicts_oldest_at_capacity() {
    let mut stats = FrameStageStats::new();
    let total = HISTORY_CAPACITY as u64 + 44;
    for length in 0..total {
        run(&mut stats, 0, length);
        assert!(stats.duration_history().len() <= HISTORY_CAPACITY);
    }
    let expected: Vec<u64> = (44..total).collect();
    assert_eq!(recorded(&stats), expected);
    assert_eq!(stats.estimate_time_for_completion(), total - 1);
}

#[test]
fn window_and_capacity_constants() {
    assert_eq!(FORECAST_WINDOW, 10);
    assert!(HISTORY_CAPACITY >= FORECAST_WINDOW);
}
