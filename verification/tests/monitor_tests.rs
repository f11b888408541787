use pacy::{Monitor, PacerError, LONGEST_INTERVAL, LOWEST_FREQUENCY};

fn interval_of(reported_frequency: u32) -> u64 {
    let rounded = (reported_frequency as u64 + 500) / 1_000;
    2_000_000_000 / (2 * rounded - 1)
}

#[test]
fn interval_of_sixty_hertz() {
    let monitor = Monitor::new(60_000, 0).unwrap();
    assert_eq!(monitor.refresh_interval(), 16_806_722);
}

#[test]
fn interval_of_hundred_twenty_hertz() {
    let monitor = Monitor::new(120_000, 0).unwrap();
    assert_eq!(monitor.refresh_interval(), 8_368_200);
}

#[test]
fn interval_rounds_rate_to_nearest_hertz() {
    assert_eq!(Monitor::new(59_940, 0).unwrap().refresh_interval(), 16_806_722);
    assert_eq!(Monitor::new(59_500, 0).unwrap().refresh_interval(), 16_806_722);
    assert_eq!(Monitor::new(59_499, 0).unwrap().refresh_interval(), 17_094_017);
    assert_eq!(Monitor::new(60_499, 0).unwrap().refresh_interval(), 16_806_722);
    assert_eq!(Monitor::new(60_500, 0).unwrap().refresh_interval(), 16_528_925);
    assert_eq!(Monitor::new(1_499, 0).unwrap().refresh_interval(), 2_000_000_000);
    assert_eq!(Monitor::new(1_500, 0).unwrap().refresh_interval(), 666_666_666);
}

#[test]
fn interval_at_the_ends_of_the_accepted_range() {
    assert_eq!(Monitor::new(LOWEST_FREQUENCY, 0).unwrap().refresh_interval(), LONGEST_INTERVAL);
    assert_eq!(Monitor::new(u32::MAX, 0).unwrap().refresh_interval(), 232);
}

#[test]
fn wait_shortly_before_boundary_at_sixty_hertz() {
    let reference: u128 = 5_000_000_000;
    let monitor = Monitor::new(60_000, reference).unwrap();
    let wait = monitor.duration_until_next_hittable_timestamp(0, reference + 16_600_000);
    assert_eq!(wait, 206_722);
}

#[test]
fn wait_when_compute_time_exceeds_interval() {
    let reference: u128 = 77;
    let monitor = Monitor::new(120_000, reference).unwrap();
    let interval = monitor.refresh_interval() as u128;
    let wait = monitor.duration_until_next_hittable_timestamp(10_000_000, reference);
    assert_eq!(wait, 6_736_400);
    assert_eq!((10_000_000 + wait as u128) % interval, 0);
    assert_eq!(10_000_000 + wait as u128, 2 * interval);
}

#[test]
fn wait_on_a_boundary_is_a_whole_interval() {
    let monitor = Monitor::new(60_000, 1_000).unwrap();
    assert_eq!(monitor.duration_until_next_hittable_timestamp(0, 1_000), 16_806_722);
    assert_eq!(
        monitor.duration_until_next_hittable_timestamp(16_806_722, 1_000),
        16_806_722
    );
    assert_eq!(
        monitor.duration_until_next_hittable_timestamp(0, 1_000 + 3 * 16_806_722),
        16_806_722
    );
}

#[test]
fn wait_one_nanosecond_either_side_of_a_boundary() {
    let monitor = Monitor::new(60_000, 0).unwrap();
    assert_eq!(monitor.duration_until_next_hittable_timestamp(0, 16_806_721), 1);
    assert_eq!(monitor.duration_until_next_hittable_timestamp(0, 16_806_723), 16_806_721);
}

#[test]
fn wait_before_the_reference_boundary() {
    let monitor = Monitor::new(60_000, 100_000_000).unwrap();
    assert_eq!(
        monitor.duration_until_next_hittable_timestamp(0, 100_000_000 - 1_000),
        1_000
    );
    assert_eq!(
        monitor.duration_until_next_hittable_timestamp(0, 100_000_000 - 16_806_722),
        16_806_722
    );
    assert_eq!(
        monitor.duration_until_next_hittable_timestamp(500, 100_000_000 - 16_806_722 - 1_000),
        500
    );
}

#[test]
fn wait_always_ends_on_a_boundary() {
    let rates = [500, 1_499, 1_500, 23_976, 59_940, 60_000, 75_000, 144_000, 360_000, u32::MAX];
    let references: [u128; 4] = [0, 1, 999_999_937, u64::MAX as u128 * 3];
    let nows: [u128; 6] = [0, 1, 16_600_000, 123_456_789_012, u64::MAX as u128, u128::MAX];
    let works: [u128; 5] = [0, 1, 10_000_000, u64::MAX as u128, u128::MAX];
    for rate in rates {
        let interval = interval_of(rate) as u128;
        for reference in references {
            let monitor = Monitor::new(rate, reference).unwrap();
            assert_eq!(monitor.refresh_interval() as u128, interval);
            for now in nows {
                for work in works {
                    let wait = monitor.duration_until_next_hittable_timestamp(work, now) as u128;
                    assert!(0 < wait && wait <= interval);
                    let ahead = (now % interval + work % interval + wait) % interval;
                    assert_eq!(ahead, reference % interval);
                }
            }
        }
    }
}

#[test]
fn new_refuses_rates_without_interval() {
    assert!(matches!(Monitor::new(0, 0), Err(PacerError::InvalidConfiguration)));
    assert!(matches!(Monitor::new(499, 0), Err(PacerError::InvalidConfiguration)));
    assert!(Monitor::new(500, 0).is_ok());
}

#[test]
fn set_frequency_replaces_rate_and_keeps_reference() {
    let mut monitor = Monitor::new(60_000, 42).unwrap();
    assert_eq!(monitor.set_frequency(144_000), Ok(()));
    assert_eq!(monitor.reported_frequency(), 144_000);
    assert_eq!(monitor.last_reported_timestamp(), 42);
    assert_eq!(monitor.refresh_interval(), 2_000_000_000 / 287);
}

#[test]
fn set_frequency_refuses_zero_and_keeps_state() {
    let mut monitor = Monitor::new(60_000, 42).unwrap();
    assert_eq!(monitor.set_frequency(0), Err(PacerError::InvalidConfiguration));
    assert_eq!(monitor.set_frequency(499), Err(PacerError::InvalidConfiguration));
    assert_eq!(monitor.reported_frequency(), 60_000);
    assert_eq!(monitor.last_reported_timestamp(), 42);
    assert_eq!(monitor.refresh_interval(), 16_806_722);
}
