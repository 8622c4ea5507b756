use complementary_spwm::scheduler::{
    sample_interval_micros, PwmScheduler, SampleStep, ScheduleError,
};
use complementary_spwm::table::{DutyPair, SampleTable};

fn pair(main: u16, comp: u16) -> DutyPair {
    DutyPair { main, comp }
}

fn step(main: u16, comp: u16, wait_micros: u32) -> SampleStep {
    SampleStep { duties: pair(main, comp), wait_micros }
}

/// Four samples without dead time: the stored pairs are (raw, 65535 - raw).
fn small_scheduler() -> PwmScheduler {
    let table = SampleTable::generate(&[10, 20, 30, 40], 0).unwrap();
    PwmScheduler::new(table, 50).unwrap()
}

#[test]
fn sample_interval_of_the_reference_waveform() {
    assert_eq!(sample_interval_micros(50, 100), Some(200));
}

#[test]
fn sample_interval_is_a_whole_number_of_microseconds() {
    assert_eq!(sample_interval_micros(1, 1), Some(1_000_000));
    assert_eq!(sample_interval_micros(3, 7), Some(47_619));
    assert_eq!(sample_interval_micros(60, 128), Some(130));
    assert_eq!(sample_interval_micros(1000, 1000), Some(1));
    assert_eq!(sample_interval_micros(1000, 1001), Some(0));
    assert_eq!(sample_interval_micros(1, 1_000_000), Some(1));
    assert_eq!(sample_interval_micros(1, 1_000_001), Some(0));
    assert_eq!(sample_interval_micros(u32::MAX, 1_000_000), Some(0));
    assert_eq!(sample_interval_micros(u32::MAX, usize::MAX), Some(0));
}

#[test]
fn sample_interval_needs_a_frequency_and_a_sample() {
    assert_eq!(sample_interval_micros(0, 100), None);
    assert_eq!(sample_interval_micros(50, 0), None);
    assert_eq!(sample_interval_micros(0, 0), None);
}

#[test]
fn scheduler_refuses_a_frequency_of_zero() {
    let table = SampleTable::generate(&[10, 20, 30, 40], 0).unwrap();
    assert_eq!(PwmScheduler::new(table, 0).unwrap_err(), ScheduleError::ZeroFrequency);
}

#[test]
fn scheduler_starts_at_the_first_sample() {
    let scheduler = small_scheduler();
    assert_eq!(scheduler.current_index(), 0);
    assert_eq!(scheduler.sample_count(), 4);
    // 1_000_000 / (50 * 4)
    assert_eq!(scheduler.interval_micros(), 5000);
}

#[test]
fn advance_walks_the_table_and_wraps() {
    let mut scheduler = small_scheduler();
    assert_eq!(scheduler.advance_one_sample(), step(10, 65525, 5000));
    assert_eq!(scheduler.current_index(), 1);
    assert_eq!(scheduler.advance_one_sample(), step(20, 65515, 5000));
    assert_eq!(scheduler.current_index(), 2);
    assert_eq!(scheduler.advance_one_sample(), step(30, 65505, 5000));
    assert_eq!(scheduler.current_index(), 3);
    assert_eq!(scheduler.advance_one_sample(), step(40, 65495, 5000));
    assert_eq!(scheduler.current_index(), 0);
    assert_eq!(scheduler.advance_one_sample(), step(10, 65525, 5000));
    assert_eq!(scheduler.current_index(), 1);
}

#[test]
fn single_sample_table_always_wraps() {
    let table = SampleTable::generate(&[32767], 100).unwrap();
    let mut scheduler = PwmScheduler::new(table, 50).unwrap();
    assert_eq!(scheduler.interval_micros(), 20_000);
    for _ in 0..3 {
        assert_eq!(scheduler.advance_one_sample(), step(32667, 32668, 20_000));
        assert_eq!(scheduler.current_index(), 0);
    }
}

#[test]
fn idle_holds_both_channels_at_zero() {
    let mut scheduler = small_scheduler();
    scheduler.advance_one_sample();
    assert_eq!(scheduler.idle(), pair(0, 0));
    // Idling does not consume the table.
    assert_eq!(scheduler.current_index(), 1);
}

#[test]
fn full_pass_writes_each_pair_once_in_table_order() {
    let mut scheduler = small_scheduler();
    let expected = vec![
        step(10, 65525, 5000),
        step(20, 65515, 5000),
        step(30, 65505, 5000),
        step(40, 65495, 5000),
    ];
    assert_eq!(scheduler.full_pass(), expected);
    assert_eq!(scheduler.current_index(), 0);
    // The next pass repeats the period without a gap.
    assert_eq!(scheduler.full_pass(), expected);
    assert_eq!(scheduler.current_index(), 0);
}

#[test]
fn full_pass_from_the_middle_comes_back_to_where_it_started() {
    let mut scheduler = small_scheduler();
    scheduler.advance_one_sample();
    scheduler.advance_one_sample();
    let expected = vec![
        step(30, 65505, 5000),
        step(40, 65495, 5000),
        step(10, 65525, 5000),
        step(20, 65515, 5000),
    ];
    assert_eq!(scheduler.full_pass(), expected);
    assert_eq!(scheduler.current_index(), 2);
}

#[test]
fn full_pass_over_the_reference_table() {
    let raw: Vec<u16> = (0..100u16).map(|i| i * 600).collect();
    let table = SampleTable::generate(&raw, 100).unwrap();
    let mut scheduler = PwmScheduler::new(table, 50).unwrap();
    let steps = scheduler.full_pass();
    assert_eq!(steps.len(), 100);
    for (i, taken) in steps.iter().enumerate() {
        let main = raw[i].saturating_sub(100);
        let comp = (65535 - raw[i]).saturating_sub(100);
        assert_eq!(*taken, step(main, comp, 200));
    }
    assert_eq!(scheduler.current_index(), 0);
}
