use roborace2023::scheduler::Scheduler;

const MS: u64 = 1_000_000;

#[test]
fn a_tick_in_time_is_filled_up_to_the_period() {
    let mut scheduler = Scheduler::new(10 * MS);
    assert_eq!(scheduler.complete_tick(4 * MS), 6 * MS);
    assert_eq!(scheduler.tick_counter, 1);
}

#[test]
fn a_late_tick_is_not_made_up_for() {
    let mut scheduler = Scheduler::new(10 * MS);
    assert_eq!(scheduler.complete_tick(12 * MS), 0);
    assert_eq!(scheduler.tick_counter, 1);
    assert_eq!(scheduler.complete_tick(4 * MS), 6 * MS);
    assert_eq!(scheduler.tick_counter, 2);
    assert_eq!(scheduler.period, 10 * MS);
}

#[test]
fn a_tick_that_takes_the_whole_period_is_not_slept_after() {
    let scheduler = Scheduler::new(10 * MS);
    assert_eq!(scheduler.sleep_for(10 * MS), 0);
    assert_eq!(scheduler.sleep_for(10 * MS - 1), 1);
    assert_eq!(scheduler.sleep_for(0), 10 * MS);
    assert_eq!(scheduler.sleep_for(u64::MAX), 0);
}

#[test]
fn every_tick_is_counted() {
    let mut scheduler = Scheduler::new(10 * MS);
    for (i, elapsed) in [0, 20 * MS, 3, 10 * MS, u64::MAX].iter().enumerate() {
        assert_eq!(scheduler.tick_counter, i as u64);
        scheduler.complete_tick(*elapsed);
    }
    assert_eq!(scheduler.tick_counter, 5);
}
