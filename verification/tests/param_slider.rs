use nih_plug_iced::param_slider::{
    EventStatus, Modifiers, SliderAction, SliderEvent, State, TextInputMessage,
};

fn press(inside: bool, double_click: bool) -> SliderEvent {
    SliderEvent::Pressed { inside, double_click, display_value: String::from("0.0 dB") }
}

fn mods(shift: bool, command: bool, alt: bool) -> Modifiers {
    Modifiers { shift, command, alt }
}

fn with_modifiers(m: Modifiers) -> State {
    let mut state = State::new();
    let (actions, status) = state.on_event(SliderEvent::ModifiersChanged(m), false);
    assert!(actions.is_empty());
    assert_eq!(status, EventStatus::Captured);
    state
}

#[test]
fn new_state_is_idle() {
    let state = State::new();
    assert_eq!(state.keyboard_modifiers, mods(false, false, false));
    assert!(!state.drag_active);
    assert!(!state.granular_drag_active);
    assert!(state.text_input_value.is_none());
}

#[test]
fn plain_drag_begins_sets_and_ends() {
    let mut state = State::new();
    let (actions, status) = state.on_event(press(true, false), false);
    assert_eq!(actions, vec![SliderAction::RememberClick, SliderAction::BeginSetParameter, SliderAction::SetFromCursor]);
    assert_eq!(status, EventStatus::Captured);
    assert!(state.drag_active);

    let (actions, status) = state.on_event(SliderEvent::Moved, false);
    assert_eq!(actions, vec![SliderAction::SetFromCursor]);
    assert_eq!(status, EventStatus::Captured);

    let (actions, status) = state.on_event(SliderEvent::Released, false);
    assert_eq!(actions, vec![SliderAction::EndSetParameter]);
    assert_eq!(status, EventStatus::Captured);
    assert!(!state.drag_active);
}

#[test]
fn press_outside_is_ignored() {
    let mut state = State::new();
    let (actions, status) = state.on_event(press(false, false), false);
    assert!(actions.is_empty());
    assert_eq!(status, EventStatus::Ignored);
    assert!(!state.drag_active);
}

#[test]
fn release_and_move_without_drag_are_ignored() {
    let mut state = State::new();
    let (actions, status) = state.on_event(SliderEvent::Released, false);
    assert!(actions.is_empty());
    assert_eq!(status, EventStatus::Ignored);
    let (actions, status) = state.on_event(SliderEvent::Moved, false);
    assert!(actions.is_empty());
    assert_eq!(status, EventStatus::Ignored);
    let (actions, status) = state.on_event(SliderEvent::Other, false);
    assert!(actions.is_empty());
    assert_eq!(status, EventStatus::Ignored);
}

#[test]
fn double_click_resets_without_dragging() {
    let mut state = State::new();
    let (actions, status) = state.on_event(press(true, true), false);
    assert_eq!(
        actions,
        vec![SliderAction::RememberClick, SliderAction::BeginSetParameter, SliderAction::SetToDefault, SliderAction::EndSetParameter]
    );
    assert_eq!(status, EventStatus::Captured);
    assert!(!state.drag_active);
}

#[test]
fn command_click_resets_without_dragging() {
    let mut state = with_modifiers(mods(false, true, false));
    let (actions, _) = state.on_event(press(true, false), false);
    assert_eq!(
        actions,
        vec![SliderAction::RememberClick, SliderAction::BeginSetParameter, SliderAction::SetToDefault, SliderAction::EndSetParameter]
    );
    assert!(!state.drag_active);
}

#[test]
fn alt_click_opens_the_text_entry() {
    let mut state = with_modifiers(mods(false, false, true));
    let (actions, status) = state.on_event(press(true, false), false);
    assert_eq!(actions, vec![SliderAction::RememberClick, SliderAction::SelectAllText]);
    assert_eq!(status, EventStatus::Captured);
    assert!(!state.drag_active);
    assert_eq!(state.text_input_value.as_deref(), Some("0.0 dB"));
}

#[test]
fn alt_wins_over_command_and_double_click() {
    let mut state = with_modifiers(mods(true, true, true));
    let (actions, _) = state.on_event(press(true, true), false);
    assert_eq!(actions, vec![SliderAction::RememberClick, SliderAction::SelectAllText]);
}

#[test]
fn shift_click_starts_a_granular_drag() {
    let mut state = with_modifiers(mods(true, false, false));
    let (actions, _) = state.on_event(press(true, false), false);
    assert_eq!(actions, vec![SliderAction::RememberClick, SliderAction::BeginSetParameter, SliderAction::RecordGranularStart]);
    assert!(state.drag_active);
    assert!(state.granular_drag_active);

    let (actions, _) = state.on_event(SliderEvent::Moved, false);
    assert_eq!(actions, vec![SliderAction::SetFromGranularDrag]);
}

#[test]
fn pressing_shift_during_a_drag_records_the_granular_start() {
    let mut state = State::new();
    state.on_event(press(true, false), false);
    state.on_event(SliderEvent::ModifiersChanged(mods(true, false, false)), false);
    let (actions, _) = state.on_event(SliderEvent::Moved, false);
    assert_eq!(actions, vec![SliderAction::RecordGranularStart, SliderAction::SetFromGranularDrag]);
    let (actions, _) = state.on_event(SliderEvent::Moved, false);
    assert_eq!(actions, vec![SliderAction::SetFromGranularDrag]);
}

#[test]
fn releasing_shift_snaps_back_to_the_cursor() {
    let mut state = with_modifiers(mods(true, false, false));
    state.on_event(press(true, false), false);
    let (actions, status) =
        state.on_event(SliderEvent::ModifiersChanged(mods(false, false, false)), false);
    assert_eq!(actions, vec![SliderAction::SetFromCursor]);
    assert_eq!(status, EventStatus::Captured);
    assert!(!state.granular_drag_active);
    assert!(state.drag_active);
}

#[test]
fn modifier_changes_are_always_captured() {
    let mut state = State::new();
    let (actions, status) =
        state.on_event(SliderEvent::ModifiersChanged(mods(false, false, true)), false);
    assert!(actions.is_empty());
    assert_eq!(status, EventStatus::Captured);
    assert_eq!(state.keyboard_modifiers, mods(false, false, true));
}

#[test]
fn unfocused_text_entry_is_closed() {
    let mut state = with_modifiers(mods(false, false, true));
    state.on_event(press(true, false), false);
    assert!(state.text_input_value.is_some());
    let (actions, status) = state.on_event(SliderEvent::Other, false);
    assert!(actions.is_empty());
    assert_eq!(status, EventStatus::Ignored);
    assert!(state.text_input_value.is_none());
}

#[test]
fn focused_text_entry_stays_open() {
    let mut state = with_modifiers(mods(false, false, true));
    state.on_event(press(true, false), false);
    assert!(state.accepts_text_input_messages(true));
    assert!(!state.accepts_text_input_messages(false));
    state.on_event(SliderEvent::Other, true);
    assert!(state.text_input_value.is_some());
}

#[test]
fn typed_text_replaces_the_entry() {
    let mut state = with_modifiers(mods(false, false, true));
    state.on_event(press(true, false), true);
    let actions = state.on_text_input_message(TextInputMessage::Value(String::from("-6")), false);
    assert!(actions.is_empty());
    assert_eq!(state.text_input_value.as_deref(), Some("-6"));
}

#[test]
fn submitted_text_sets_the_parameter_and_closes_the_entry() {
    let mut state = with_modifiers(mods(false, false, true));
    state.on_event(press(true, false), true);
    let actions = state.on_text_input_message(TextInputMessage::Submit, true);
    assert_eq!(actions, vec![SliderAction::BeginSetParameter, SliderAction::SetFromText, SliderAction::EndSetParameter]);
    assert!(state.text_input_value.is_none());
    assert!(!state.drag_active);
}

#[test]
fn unparsable_text_only_closes_the_entry() {
    let mut state = with_modifiers(mods(false, false, true));
    state.on_event(press(true, false), true);
    let actions = state.on_text_input_message(TextInputMessage::Submit, false);
    assert!(actions.is_empty());
    assert!(state.text_input_value.is_none());
}

#[test]
fn submit_without_text_sets_nothing() {
    let mut state = State::new();
    let actions = state.on_text_input_message(TextInputMessage::Submit, true);
    assert!(actions.is_empty());
}

#[test]
fn background_is_highlighted_when_hovered_dragged_or_editing() {
    let mut state = State::new();
    assert!(!state.background_highlighted(false));
    assert!(state.background_highlighted(true));
    state.on_event(press(true, false), false);
    assert!(state.background_highlighted(false));
    state.on_event(SliderEvent::Released, false);
    assert!(!state.background_highlighted(false));
    let mut editing = with_modifiers(mods(false, false, true));
    editing.on_event(press(true, false), true);
    assert!(editing.background_highlighted(false));
}

#[test]
fn a_drag_session_sends_paired_gesture_messages() {
    let mut state = State::new();
    let mut all = Vec::new();
    for event in [
        press(true, false),
        SliderEvent::Moved,
        SliderEvent::ModifiersChanged(mods(true, false, false)),
        SliderEvent::Moved,
        SliderEvent::ModifiersChanged(mods(false, false, false)),
        SliderEvent::Moved,
        SliderEvent::Released,
        press(true, true),
    ] {
        let (actions, _) = state.on_event(event, false);
        all.extend(actions);
    }
    let begins = all.iter().filter(|a| **a == SliderAction::BeginSetParameter).count();
    let ends = all.iter().filter(|a| **a == SliderAction::EndSetParameter).count();
    assert_eq!(begins, 2);
    assert_eq!(ends, 2);
    assert!(!state.drag_active);
}

#[test]
fn press_during_a_drag_loses_the_open_gesture() {
    // The one input on which the pairing does not hold: a second press inside
    // the slider while it is dragged begins a new gesture.
    let mut state = State::new();
    state.on_event(press(true, false), false);
    let (actions, _) = state.on_event(press(true, false), false);
    assert_eq!(actions, vec![SliderAction::RememberClick, SliderAction::BeginSetParameter, SliderAction::SetFromCursor]);
    assert!(state.drag_active);
}

#[test]
fn gestures_never_nest_in_a_session() {
    let mut state = State::new();
    let mut all = Vec::new();
    let events = vec![
        press(true, false),
        SliderEvent::Moved,
        SliderEvent::Released,
        press(true, true),
        SliderEvent::ModifiersChanged(mods(true, false, false)),
        press(true, false),
        SliderEvent::Moved,
        SliderEvent::Moved,
    ];
    for event in events {
        let (actions, _) = state.on_event(event, false);
        all.extend(actions);
    }
    // Keep only the messages that reach the host and check the pattern
    // (Begin Set* End)* (Begin Set*)? one message at a time.
    let mut open = false;
    for action in all {
        match action {
            SliderAction::BeginSetParameter => {
                assert!(!open);
                open = true;
            }
            SliderAction::EndSetParameter => {
                assert!(open);
                open = false;
            }
            SliderAction::SetToDefault
            | SliderAction::SetFromCursor
            | SliderAction::SetFromGranularDrag
            | SliderAction::SetFromText => assert!(open),
            _ => {}
        }
    }
    // The last gesture is still open exactly because the slider is dragged.
    assert!(open);
    assert!(state.drag_active);
}
