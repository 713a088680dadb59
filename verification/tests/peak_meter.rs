use nih_plug_iced::peak_meter::{bar_tick_coordinates, text_ticks, tick_label, State, TICK_STEP};

#[test]
fn text_ticks_are_the_scale_values() {
    assert_eq!(text_ticks(), vec![-80, -60, -40, -20, 0]);
}

#[test]
fn lowest_tick_is_labelled_minus_infinity() {
    assert_eq!(tick_label(-80), "-inf");
}

#[test]
fn other_ticks_are_labelled_in_decimal() {
    let labels: Vec<String> = text_ticks().into_iter().map(tick_label).collect();
    assert_eq!(labels, vec!["-inf", "-60", "-40", "-20", "0"]);
    assert_eq!(tick_label(20), "20");
}

#[test]
fn tick_step_is_one_tick_and_one_gap() {
    assert_eq!(TICK_STEP, 2);
}

#[test]
fn bar_ticks_every_second_pixel() {
    assert_eq!(bar_tick_coordinates(10, 20), vec![10, 12, 14, 16, 18]);
    assert_eq!(bar_tick_coordinates(10, 19), vec![10, 12, 14, 16, 18]);
    assert_eq!(bar_tick_coordinates(10, 11), vec![10]);
    assert_eq!(bar_tick_coordinates(-3, 2), vec![-3, -1, 1]);
}

#[test]
fn empty_bar_has_no_ticks() {
    assert_eq!(bar_tick_coordinates(10, 10), Vec::<i32>::new());
    assert_eq!(bar_tick_coordinates(10, 4), Vec::<i32>::new());
}

#[test]
fn bar_ticks_match_step_by() {
    for (start, end) in [(1, 179), (0, 1), (5, 100), (-50, 50)] {
        let expected: Vec<i32> = (start..end).step_by(2).collect();
        assert_eq!(bar_tick_coordinates(start, end), expected);
    }
}

#[test]
fn peak_meter_memory_starts_empty() {
    let state = State::new(0.0f32);
    assert_eq!(state.held_peak_value_db, 0.0);
    assert_eq!(state.last_held_peak_value, None);
}

#[test]
fn first_draw_holds_the_current_value() {
    let mut state = State::new(0.0f32);
    // -12 dB is below the initial 0 dB, but nothing was held yet.
    let shown = state.hold_peak(-12.0, false, 1_000, 600_000_000);
    assert_eq!(shown, -12.0);
    assert_eq!(state.held_peak_value_db, -12.0);
    assert_eq!(state.last_held_peak_value, Some(1_000));
}

#[test]
fn peak_is_held_for_the_hold_time() {
    let hold = 600_000_000u64;
    let mut state = State::new(0.0f32);
    state.hold_peak(-6.0, true, 1_000, hold);
    let shown = state.hold_peak(-20.0, false, 1_000 + hold, hold);
    assert_eq!(shown, -6.0);
    assert_eq!(state.last_held_peak_value, Some(1_000));
}

#[test]
fn peak_is_released_after_the_hold_time() {
    let hold = 600_000_000u64;
    let mut state = State::new(0.0f32);
    state.hold_peak(-6.0, true, 1_000, hold);
    let shown = state.hold_peak(-20.0, false, 1_001 + hold, hold);
    assert_eq!(shown, -20.0);
    assert_eq!(state.held_peak_value_db, -20.0);
    assert_eq!(state.last_held_peak_value, Some(1_001 + hold));
}

#[test]
fn higher_value_replaces_the_peak_at_once() {
    let hold = 600_000_000u64;
    let mut state = State::new(0.0f32);
    state.hold_peak(-6.0, true, 1_000, hold);
    let shown = state.hold_peak(-3.0, true, 2_000, hold);
    assert_eq!(shown, -3.0);
    assert_eq!(state.last_held_peak_value, Some(2_000));
}

#[test]
fn clock_before_the_peak_keeps_it() {
    let mut state = State::new(0.0f32);
    state.hold_peak(-6.0, true, 5_000, 10);
    let shown = state.hold_peak(-20.0, false, 1_000, 10);
    assert_eq!(shown, -6.0);
}
