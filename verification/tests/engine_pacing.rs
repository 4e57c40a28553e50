use slam_viewer::engine::pacing::{frame_interval, min_framerate, pacing_interval};
use slam_viewer::engine::timer::Timer;

#[test]
fn frame_interval_of_common_framerates() {
    assert_eq!(frame_interval(30), 32_833);
    assert_eq!(frame_interval(60), 16_166);
    assert_eq!(frame_interval(120), 7_833);
    assert_eq!(frame_interval(1), 999_500);
}

#[test]
fn frame_interval_matches_the_floating_point_formula() {
    for f in 1u64..=2000 {
        let expected = (1_000_000.0 / f as f64) as u64 - 500;
        assert_eq!(frame_interval(f), expected);
    }
}

#[test]
fn frame_interval_at_the_edges() {
    assert_eq!(frame_interval(2000), 0);
    assert_eq!(frame_interval(2001), 0);
    assert_eq!(frame_interval(u64::MAX), 0);
    assert_eq!(frame_interval(0), u64::MAX - 500);
}

#[test]
fn min_framerate_skips_windows_without_a_framerate() {
    assert_eq!(min_framerate(&vec![]), None);
    assert_eq!(min_framerate(&vec![None, None]), None);
    assert_eq!(min_framerate(&vec![None, Some(60), None, Some(30)]), Some(30));
    assert_eq!(min_framerate(&vec![Some(0), Some(60)]), Some(0));
    assert_eq!(min_framerate(&vec![Some(120)]), Some(120));
}

#[test]
fn two_windows_are_paced_by_the_slower_one() {
    let interval = pacing_interval(&vec![Some(30), Some(60)]);
    assert_eq!(interval, Some(frame_interval(30)));
    assert_eq!(interval, Some(32_833));
    assert_eq!(pacing_interval(&vec![Some(60), Some(30)]), Some(32_833));
}

#[test]
fn no_framerate_means_no_pacing() {
    assert_eq!(pacing_interval(&vec![None, None]), None);
    assert_eq!(pacing_interval(&vec![]), None);
}

#[test]
fn slower_framerates_never_shorten_the_interval() {
    let mut last = frame_interval(1);
    for f in 2u64..3000 {
        let next = frame_interval(f);
        assert!(next <= last);
        last = next;
    }
}

#[test]
fn timer_waits_for_the_rest_of_the_frame() {
    let timer = Timer::try_new(32_833, 1_000).unwrap();
    assert_eq!(timer.time_limit(), 32_833);
    assert_eq!(timer.remaining(1_000), 32_833);
    assert_eq!(timer.remaining(11_000), 22_833);
    assert_eq!(timer.remaining(33_832), 1);
    assert_eq!(timer.remaining(33_833), 0);
    assert_eq!(timer.remaining(1_000_000), 0);
}

#[test]
fn timer_takes_a_clock_that_went_backwards_as_no_time_passed() {
    let timer = Timer::try_new(500, 1_000).unwrap();
    assert_eq!(timer.remaining(10), 500);
}

#[test]
fn timer_sync_starts_the_next_frame_after_the_wait() {
    let mut timer = Timer::try_new(100, 0).unwrap();
    assert_eq!(timer.sync(40), 60);
    assert_eq!(timer.remaining(100), 100);
    assert_eq!(timer.sync(150), 50);
    assert_eq!(timer.sync(500), 0);
    assert_eq!(timer.remaining(500), 100);
}

#[test]
fn timer_sync_saturates_at_the_end_of_the_clock() {
    let mut timer = Timer::try_new(100, u64::MAX - 10).unwrap();
    assert_eq!(timer.sync(u64::MAX - 5), 95);
    assert_eq!(timer.remaining(u64::MAX), 100);
}

#[test]
fn timer_restart_sets_the_start_of_the_frame() {
    let mut timer = Timer::try_new(100, 0).unwrap();
    timer.restart(1_000);
    assert_eq!(timer.remaining(1_030), 70);
    assert_eq!(timer.time_limit(), 100);
}

#[test]
fn timer_without_limit_never_waits() {
    let mut timer = Timer::try_new(0, 7).unwrap();
    assert_eq!(timer.remaining(7), 0);
    assert_eq!(timer.sync(7), 0);
}
