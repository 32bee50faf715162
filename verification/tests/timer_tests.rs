use ratatui::widgets::ListState;
use stopwatch::timer::Lap;
use stopwatch::timer::TimerState;

const SECOND: u128 = 1_000_000_000;

fn lap(lap_seconds: u128, total_seconds: u128) -> Lap {
    Lap { lap_time: lap_seconds * SECOND, total_time: total_seconds * SECOND }
}

#[test]
fn a_new_stopwatch_runs_from_zero() {
    let timer = TimerState::new_at(7 * SECOND);
    assert!(timer.is_running());
    assert!(timer.laps().is_empty());
    assert_eq!(timer.selected(), None);
    assert_eq!(timer.selected_lap(), None);
    assert_eq!(timer.elapsed_at(7 * SECOND), 0);
    assert_eq!(timer.elapsed_at(9 * SECOND), 2 * SECOND);
}

#[test]
fn elapsed_time_follows_the_clock_while_running() {
    let timer = TimerState::new_at(100);
    assert_eq!(timer.elapsed_at(100), 0);
    assert_eq!(timer.elapsed_at(101), 1);
    assert_eq!(timer.elapsed_at(100 + 90 * SECOND), 90 * SECOND);
}

#[test]
fn a_reading_before_the_latest_event_counts_as_that_event() {
    let mut timer = TimerState::new_at(10 * SECOND);
    assert_eq!(timer.elapsed_at(4 * SECOND), 0);
    timer.add_lap_at(12 * SECOND);
    assert_eq!(timer.elapsed_at(11 * SECOND), 2 * SECOND);
    timer.add_lap_at(3 * SECOND);
    assert_eq!(timer.laps().as_slice(), &[lap(2, 2), lap(0, 2)]);
    timer.toggle_pause_at(SECOND);
    timer.toggle_pause_at(0);
    assert_eq!(timer.elapsed_at(0), 2 * SECOND);
    assert_eq!(timer.elapsed_at(13 * SECOND), 3 * SECOND);
}

#[test]
fn a_lap_holds_the_time_since_the_last_event_and_the_total() {
    let mut timer = TimerState::new_at(0);
    timer.add_lap_at(5 * SECOND);
    assert_eq!(timer.laps().as_slice(), &[lap(5, 5)]);
    timer.add_lap_at(7 * SECOND);
    assert_eq!(timer.laps().as_slice(), &[lap(5, 5), lap(2, 7)]);
    assert_eq!(timer.selected(), Some(0));
    assert_eq!(timer.selected_lap(), Some(lap(2, 7)));
}

#[test]
fn pausing_and_resuming_keep_elapsed_time() {
    let mut timer = TimerState::new_at(0);
    timer.add_lap_at(2 * SECOND);
    let before = timer.elapsed_at(8 * SECOND);
    timer.toggle_pause_at(8 * SECOND);
    assert!(!timer.is_running());
    timer.toggle_pause_at(18 * SECOND);
    assert!(timer.is_running());
    assert_eq!(before, 8 * SECOND);
    assert_eq!(timer.elapsed_at(18 * SECOND), before);
    assert_eq!(timer.elapsed_at(19 * SECOND), before + SECOND);
}

#[test]
fn repeated_pauses_add_no_drift() {
    let mut timer = TimerState::new_at(0);
    let mut now: u128 = 0;
    let mut active: u128 = 0;
    for round in 1..=50u128 {
        now += round * 1_000_003;
        active += round * 1_000_003;
        timer.toggle_pause_at(now);
        assert_eq!(timer.elapsed_at(now), active);
        now += round * 7_000_001;
        assert_eq!(timer.elapsed_at(now), active);
        timer.toggle_pause_at(now);
        assert_eq!(timer.elapsed_at(now), active);
    }
}

#[test]
fn elapsed_time_is_frozen_while_paused() {
    let mut timer = TimerState::new_at(SECOND);
    timer.toggle_pause_at(4 * SECOND);
    assert_eq!(timer.elapsed_at(4 * SECOND), 3 * SECOND);
    assert_eq!(timer.elapsed_at(5 * SECOND), 3 * SECOND);
    assert_eq!(timer.elapsed_at(500 * SECOND), 3 * SECOND);
    assert_eq!(timer.elapsed_at(0), 3 * SECOND);
}

#[test]
fn laps_without_pauses_telescope() {
    let mut timer = TimerState::new_at(3);
    let readings: [u128; 6] = [10, 10, 250, 1_000, 999, 123_456_789];
    for reading in readings {
        timer.add_lap_at(reading);
    }
    let mut sum: u128 = 0;
    for recorded in timer.laps() {
        sum += recorded.lap_time;
        assert_eq!(recorded.total_time, sum);
    }
    assert_eq!(timer.laps().len(), 6);
    assert_eq!(sum, 123_456_786);
}

#[test]
fn lap_times_never_sum_to_more_than_the_total() {
    let mut timer = TimerState::new_at(0);
    timer.add_lap_at(5 * SECOND);
    timer.toggle_pause_at(8 * SECOND);
    timer.add_lap_at(9 * SECOND);
    timer.toggle_pause_at(20 * SECOND);
    timer.add_lap_at(21 * SECOND);
    let mut sum: u128 = 0;
    let mut previous_total: u128 = 0;
    for recorded in timer.laps() {
        sum += recorded.lap_time;
        assert!(sum <= recorded.total_time);
        assert!(recorded.lap_time <= recorded.total_time);
        assert!(previous_total <= recorded.total_time);
        previous_total = recorded.total_time;
    }
    assert_eq!(timer.laps().as_slice(), &[lap(5, 5), lap(1, 9), lap(1, 10)]);
}

#[test]
fn laps_around_a_pause() {
    let mut timer = TimerState::new_at(0);
    timer.add_lap_at(5 * SECOND);
    assert_eq!(timer.laps().as_slice(), &[lap(5, 5)]);
    timer.toggle_pause_at(8 * SECOND);
    assert_eq!(timer.elapsed_at(12 * SECOND), 8 * SECOND);
    timer.toggle_pause_at(18 * SECOND);
    timer.add_lap_at(18 * SECOND);
    // The ten seconds of the pause are in neither number; the lap time
    // counts from the resume, the latest event before the lap.
    assert_eq!(timer.laps().as_slice(), &[lap(5, 5), lap(0, 8)]);
    assert_eq!(timer.elapsed_at(18 * SECOND), 8 * SECOND);
    timer.add_lap_at(20 * SECOND);
    assert_eq!(timer.laps().as_slice(), &[lap(5, 5), lap(0, 8), lap(2, 10)]);
}

#[test]
fn a_lap_right_after_pausing_has_no_length() {
    let mut timer = TimerState::new_at(0);
    timer.toggle_pause_at(4 * SECOND);
    timer.add_lap_at(4 * SECOND);
    assert_eq!(timer.laps().as_slice(), &[lap(0, 4)]);
    assert!(!timer.is_running());
}

#[test]
fn reset_starts_over() {
    let mut timer = TimerState::new_at(0);
    timer.add_lap_at(SECOND);
    timer.add_lap_at(2 * SECOND);
    timer.toggle_pause_at(3 * SECOND);
    timer.reset_at(10 * SECOND);
    assert!(timer.is_running());
    assert!(timer.laps().is_empty());
    assert_eq!(timer.selected(), None);
    assert_eq!(timer.elapsed_at(10 * SECOND), 0);
    assert_eq!(timer.list_state(), ListState::default());
}

#[test]
fn resetting_twice_is_resetting_once() {
    let mut once = TimerState::new_at(0);
    once.add_lap_at(SECOND);
    once.reset_at(6 * SECOND);
    let mut twice = TimerState::new_at(0);
    twice.add_lap_at(SECOND);
    twice.reset_at(4 * SECOND);
    twice.reset_at(6 * SECOND);
    assert_eq!(once.is_running(), twice.is_running());
    assert_eq!(once.laps(), twice.laps());
    assert_eq!(once.selected(), twice.selected());
    assert_eq!(once.list_state(), twice.list_state());
    assert_eq!(once.elapsed_at(6 * SECOND), 0);
    assert_eq!(twice.elapsed_at(6 * SECOND), 0);
    assert_eq!(once.elapsed_at(9 * SECOND), twice.elapsed_at(9 * SECOND));
}

#[test]
fn a_reset_may_go_back_on_the_clock() {
    let mut timer = TimerState::new_at(50 * SECOND);
    timer.add_lap_at(60 * SECOND);
    timer.reset_at(5 * SECOND);
    assert_eq!(timer.elapsed_at(6 * SECOND), SECOND);
}

#[test]
fn scrolling_without_laps_does_nothing() {
    let mut timer = TimerState::new_at(0);
    timer.scroll_up();
    assert_eq!(timer.selected(), None);
    timer.scroll_down();
    assert_eq!(timer.selected(), None);
    assert!(timer.laps().is_empty());
}

#[test]
fn scrolling_wraps_around() {
    let mut timer = TimerState::new_at(0);
    for reading in 1..=4u128 {
        timer.add_lap_at(reading * SECOND);
    }
    assert_eq!(timer.selected(), Some(0));
    timer.scroll_up();
    assert_eq!(timer.selected(), Some(3));
    timer.scroll_down();
    assert_eq!(timer.selected(), Some(0));
    timer.scroll_down();
    assert_eq!(timer.selected(), Some(1));
    timer.scroll_down();
    assert_eq!(timer.selected(), Some(2));
    timer.scroll_down();
    assert_eq!(timer.selected(), Some(3));
    timer.scroll_down();
    assert_eq!(timer.selected(), Some(0));
    timer.scroll_up();
    timer.scroll_up();
    assert_eq!(timer.selected(), Some(2));
    assert_eq!(timer.laps().len(), 4);
}

#[test]
fn scrolling_over_one_lap_stays_on_it() {
    let mut timer = TimerState::new_at(0);
    timer.add_lap_at(SECOND);
    timer.scroll_up();
    assert_eq!(timer.selected(), Some(0));
    timer.scroll_down();
    assert_eq!(timer.selected(), Some(0));
}

#[test]
fn the_selection_counts_from_the_newest_lap() {
    let mut timer = TimerState::new_at(0);
    timer.add_lap_at(SECOND);
    timer.add_lap_at(3 * SECOND);
    timer.add_lap_at(6 * SECOND);
    assert_eq!(timer.selected_lap(), Some(lap(3, 6)));
    timer.scroll_down();
    assert_eq!(timer.selected_lap(), Some(lap(2, 3)));
    timer.scroll_down();
    assert_eq!(timer.selected_lap(), Some(lap(1, 1)));
    timer.scroll_down();
    assert_eq!(timer.selected_lap(), Some(lap(3, 6)));
}

#[test]
fn a_new_lap_takes_the_selection() {
    let mut timer = TimerState::new_at(0);
    timer.add_lap_at(SECOND);
    timer.add_lap_at(2 * SECOND);
    timer.scroll_down();
    assert_eq!(timer.selected(), Some(1));
    timer.add_lap_at(3 * SECOND);
    assert_eq!(timer.selected(), Some(0));
}

#[test]
fn scrolling_changes_neither_time_nor_laps() {
    let mut timer = TimerState::new_at(0);
    timer.add_lap_at(SECOND);
    timer.add_lap_at(2 * SECOND);
    timer.toggle_pause_at(3 * SECOND);
    timer.scroll_up();
    timer.scroll_down();
    timer.scroll_down();
    assert_eq!(timer.elapsed_at(30 * SECOND), 3 * SECOND);
    assert_eq!(timer.laps().as_slice(), &[lap(1, 1), lap(1, 2)]);
    assert!(!timer.is_running());
}

#[test]
fn the_list_cursor_carries_the_selection() {
    let mut timer = TimerState::new_at(0);
    assert_eq!(timer.list_state().selected(), None);
    timer.add_lap_at(SECOND);
    timer.add_lap_at(2 * SECOND);
    timer.scroll_up();
    assert_eq!(timer.list_state().selected(), Some(1));
    assert_eq!(timer.list_state().offset(), 0);
}

#[test]
fn the_shown_offset_is_remembered_and_the_selection_kept() {
    let mut timer = TimerState::new_at(0);
    for reading in 1..=9u128 {
        timer.add_lap_at(reading * SECOND);
    }
    timer.scroll_up();
    let shown = ListState::default().with_offset(5).with_selected(Some(2));
    timer.remember_scroll(shown);
    assert_eq!(timer.selected(), Some(8));
    assert_eq!(timer.list_state().offset(), 5);
    timer.scroll_down();
    assert_eq!(timer.selected(), Some(0));
    assert_eq!(timer.list_state().offset(), 5);
    timer.reset_at(10 * SECOND);
    assert_eq!(timer.list_state().offset(), 0);
}
