//! What each kind of input does to the slider, stated field by field from the
//! input and the state before it: which modifiers are recorded, when a press
//! drags from the cursor, starts a granular drag, resets the parameter or opens
//! the text entry, what moves, releases and modifier changes do to a drag, and
//! what the text entry's messages do.

use vstd::prelude::*;
use crate::param_slider::{
    on_event_spec, text_message_spec, EventStatus, Modifiers, SliderAction, SliderEvent, State,
    TextInputMessage,
};

verus! {

/// The text entry's text after the check that starts every event: it stays
/// while the entry has the keyboard focus and is gone otherwise.
pub open spec fn text_after_focus_check(s: State, text_input_focused: bool) -> Option<String> {
    if text_input_focused {
        s.text_input_value
    } else {
        None
    }
}

/// The slider records exactly the modifiers that a modifier change reports,
/// in every state, and no other event changes the recorded modifiers.
pub proof fn law_modifiers_follow_the_keyboard(s: State, e: SliderEvent, text_input_focused: bool)
    ensures
        ({
            let next = on_event_spec(s, e, text_input_focused).0;
            &&& e matches SliderEvent::ModifiersChanged(m) ==> next.keyboard_modifiers == m
            &&& !(e is ModifiersChanged) ==> next.keyboard_modifiers == s.keyboard_modifiers
        }),
{
}

/// A press inside the slider with no modifier held and no double click always
/// starts a drag that sets the value from the cursor, whatever granular state
/// an earlier drag left behind; the drag is not granular.
pub proof fn law_plain_press_drags_from_cursor(
    s: State,
    display_value: String,
    text_input_focused: bool,
)
    requires
        s.keyboard_modifiers == (Modifiers { shift: false, command: false, alt: false }),
    ensures
        ({
            let e = SliderEvent::Pressed { inside: true, double_click: false, display_value };
            let (next, actions, status) = on_event_spec(s, e, text_input_focused);
            &&& actions == seq![
                SliderAction::RememberClick,
                SliderAction::BeginSetParameter,
                SliderAction::SetFromCursor,
            ]
            &&& status == EventStatus::Captured
            &&& next.drag_active
            &&& !next.granular_drag_active
            &&& next.text_input_value == text_after_focus_check(s, text_input_focused)
        }),
{
}

/// A shift+press inside the slider (no alt, no command, no double click)
/// starts a granular drag without moving the value: it records the granular
/// start and sends no parameter change.
pub proof fn law_shift_press_starts_granular_drag(
    s: State,
    display_value: String,
    text_input_focused: bool,
)
    requires
        s.keyboard_modifiers == (Modifiers { shift: true, command: false, alt: false }),
    ensures
        ({
            let e = SliderEvent::Pressed { inside: true, double_click: false, display_value };
            let (next, actions, status) = on_event_spec(s, e, text_input_focused);
            &&& actions == seq![
                SliderAction::RememberClick,
                SliderAction::BeginSetParameter,
                SliderAction::RecordGranularStart,
            ]
            &&& status == EventStatus::Captured
            &&& next.drag_active
            &&& next.granular_drag_active
        }),
{
}

/// A command+press or a double click inside the slider, without alt, resets
/// the parameter to its default inside a gesture of its own and leaves no drag
/// active.
pub proof fn law_reset_press_sets_default(
    s: State,
    double_click: bool,
    display_value: String,
    text_input_focused: bool,
)
    requires
        !s.keyboard_modifiers.alt,
        s.keyboard_modifiers.command || double_click,
    ensures
        ({
            let e = SliderEvent::Pressed { inside: true, double_click, display_value };
            let (next, actions, status) = on_event_spec(s, e, text_input_focused);
            &&& actions == seq![
                SliderAction::RememberClick,
                SliderAction::BeginSetParameter,
                SliderAction::SetToDefault,
                SliderAction::EndSetParameter,
            ]
            &&& status == EventStatus::Captured
            &&& !next.drag_active
            &&& next.granular_drag_active == s.granular_drag_active
        }),
{
}

/// An alt+press inside the slider opens the text entry with the parameter's
/// displayed value selected, sends no parameter message and leaves no drag
/// active.
pub proof fn law_alt_press_opens_text_entry(
    s: State,
    double_click: bool,
    display_value: String,
    text_input_focused: bool,
)
    requires
        s.keyboard_modifiers.alt,
    ensures
        ({
            let e = SliderEvent::Pressed {
                inside: true,
                double_click,
                display_value: display_value,
            };
            let (next, actions, status) = on_event_spec(s, e, text_input_focused);
            &&& actions == seq![SliderAction::RememberClick, SliderAction::SelectAllText]
            &&& status == EventStatus::Captured
            &&& !next.drag_active
            &&& next.text_input_value == Some(display_value)
        }),
{
}

/// A press outside the slider is ignored: nothing is sent and nothing but the
/// focus check changes.
pub proof fn law_press_outside_is_ignored(
    s: State,
    double_click: bool,
    display_value: String,
    text_input_focused: bool,
)
    ensures
        ({
            let e = SliderEvent::Pressed { inside: false, double_click, display_value };
            let (next, actions, status) = on_event_spec(s, e, text_input_focused);
            &&& actions.len() == 0
            &&& status == EventStatus::Ignored
            &&& next.drag_active == s.drag_active
            &&& next.granular_drag_active == s.granular_drag_active
            &&& next.keyboard_modifiers == s.keyboard_modifiers
            &&& next.text_input_value == text_after_focus_check(s, text_input_focused)
        }),
{
}

/// During a drag, a move follows the cursor when shift is not held and
/// otherwise moves the value granularly, recording the granular start first
/// exactly when none is recorded yet. Without a drag, a move is ignored.
/// A move never starts or ends a drag.
pub proof fn law_move_follows_cursor_or_granular(s: State, text_input_focused: bool)
    ensures
        ({
            let (next, actions, status) = on_event_spec(s, SliderEvent::Moved, text_input_focused);
            &&& next.drag_active == s.drag_active
            &&& !s.drag_active ==> {
                &&& actions.len() == 0
                &&& status == EventStatus::Ignored
                &&& next.granular_drag_active == s.granular_drag_active
            }
            &&& (s.drag_active && !s.keyboard_modifiers.shift) ==> {
                &&& actions == seq![SliderAction::SetFromCursor]
                &&& status == EventStatus::Captured
                &&& !next.granular_drag_active
            }
            &&& (s.drag_active && s.keyboard_modifiers.shift && s.granular_drag_active) ==> {
                &&& actions == seq![SliderAction::SetFromGranularDrag]
                &&& status == EventStatus::Captured
                &&& next.granular_drag_active
            }
            &&& (s.drag_active && s.keyboard_modifiers.shift && !s.granular_drag_active) ==> {
                &&& actions == seq![
                    SliderAction::RecordGranularStart,
                    SliderAction::SetFromGranularDrag,
                ]
                &&& status == EventStatus::Captured
                &&& next.granular_drag_active
            }
        }),
{
}

/// A release ends an active drag with an end message; without a drag it is
/// ignored. It never changes the granular state.
pub proof fn law_release_ends_drag(s: State, text_input_focused: bool)
    ensures
        ({
            let (next, actions, status) = on_event_spec(
                s,
                SliderEvent::Released,
                text_input_focused,
            );
            &&& !next.drag_active
            &&& next.granular_drag_active == s.granular_drag_active
            &&& s.drag_active ==> actions == seq![SliderAction::EndSetParameter] && status
                == EventStatus::Captured
            &&& !s.drag_active ==> actions.len() == 0 && status == EventStatus::Ignored
        }),
{
}

/// A modifier change is always consumed and never starts or ends a drag.
/// Releasing shift during a granular drag ends the granular mode and snaps the
/// value back to the cursor; any other modifier change sends nothing and keeps
/// the granular state.
pub proof fn law_shift_release_snaps_back(s: State, m: Modifiers, text_input_focused: bool)
    ensures
        ({
            let (next, actions, status) = on_event_spec(
                s,
                SliderEvent::ModifiersChanged(m),
                text_input_focused,
            );
            let snaps = s.drag_active && s.granular_drag_active && !m.shift;
            &&& status == EventStatus::Captured
            &&& next.drag_active == s.drag_active
            &&& snaps ==> actions == seq![SliderAction::SetFromCursor] && !next.granular_drag_active
            &&& !snaps ==> actions.len() == 0 && next.granular_drag_active == s.granular_drag_active
        }),
{
}

/// Only an alt+press inside the slider opens or changes the text entry; every
/// other event keeps it, except that an entry without the keyboard focus is
/// closed.
pub proof fn law_only_alt_press_opens_text_entry(s: State, e: SliderEvent, text_input_focused: bool)
    ensures
        ({
            let next = on_event_spec(s, e, text_input_focused).0;
            !(e matches SliderEvent::Pressed { inside, .. } && inside && s.keyboard_modifiers.alt)
                ==> next.text_input_value == text_after_focus_check(s, text_input_focused)
        }),
{
}

/// Typing replaces the entry's text and sends nothing; submitting closes the
/// entry, and sets the parameter inside a gesture of its own exactly when
/// there was a text and it parses. Neither touches the drag, the granular
/// state or the modifiers.
pub proof fn law_text_messages(s: State, msg: TextInputMessage, text_parses: bool)
    ensures
        ({
            let (next, actions) = text_message_spec(s, msg, text_parses);
            &&& next.drag_active == s.drag_active
            &&& next.granular_drag_active == s.granular_drag_active
            &&& next.keyboard_modifiers == s.keyboard_modifiers
            &&& msg matches TextInputMessage::Value(text) ==> {
                &&& next.text_input_value == Some(text)
                &&& actions.len() == 0
            }
            &&& msg is Submit ==> {
                &&& next.text_input_value is None
                &&& (s.text_input_value is Some && text_parses) ==> actions == seq![
                    SliderAction::BeginSetParameter,
                    SliderAction::SetFromText,
                    SliderAction::EndSetParameter,
                ]
                &&& !(s.text_input_value is Some && text_parses) ==> actions.len() == 0
            }
        }),
{
}

} // verus!
