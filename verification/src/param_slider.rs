//! The interaction logic of the parameter slider: how mouse, touch and
//! keyboard events move the slider between idle, dragging, granular dragging
//! and text entry, and which parameter messages each event sends.
//!
//! The widget code reports each event as a `SliderEvent` and carries out the
//! returned `SliderAction`s in order; everything that needs the screen
//! geometry or the parameter's floating-point values (where the cursor lies,
//! which normalized value a position stands for) happens there.

use vstd::prelude::*;

verus! {

/// The keyboard modifiers that the slider reacts to.
#[derive(Clone, Copy, Debug, PartialEq, Eq, Structural)]
pub struct Modifiers {
    /// Shift: granular dragging.
    pub shift: bool,
    /// The platform's command key (Ctrl, or Cmd on macOS): reset to default.
    pub command: bool,
    /// Alt: open the text entry.
    pub alt: bool,
}

/// An input event, as far as the slider's decisions depend on it.
pub enum SliderEvent {
    /// The left mouse button was pressed, or a finger touched the screen.
    /// `inside` tells whether this happened within the slider's bounds,
    /// `double_click` whether it completes a double click, and
    /// `display_value` is the parameter's current value as text, which the
    /// text entry starts out with.
    Pressed { inside: bool, double_click: bool, display_value: String },
    /// The left mouse button was released, or a finger was lifted or lost.
    Released,
    /// The cursor or a finger moved.
    Moved,
    /// The keyboard modifiers changed to these.
    ModifiersChanged(Modifiers),
    /// Any other event.
    Other,
}

/// A message from the slider's embedded text entry.
pub enum TextInputMessage {
    /// A new text was entered.
    Value(String),
    /// Enter was pressed.
    Submit,
}

/// What the widget does in answer to an event, in the order given.
#[derive(Clone, Copy, Debug, PartialEq, Eq, Structural)]
pub enum SliderAction {
    /// Remember this press for double-click detection.
    RememberClick,
    /// Publish the message that starts a parameter change gesture.
    BeginSetParameter,
    /// Publish the message that ends a parameter change gesture.
    EndSetParameter,
    /// Set the parameter to its default normalized value.
    SetToDefault,
    /// Set the parameter to the normalized value under the cursor.
    SetFromCursor,
    /// Record the cursor's x coordinate and the parameter's normalized value
    /// as the start of a granular drag.
    RecordGranularStart,
    /// Set the parameter from the granular drag: the start value moved by a
    /// tenth of the cursor's distance from the start coordinate.
    SetFromGranularDrag,
    /// Move the text entry's cursor to the end and select all of its text.
    SelectAllText,
    /// Set the parameter to the value parsed from the submitted text.
    SetFromText,
}

/// Whether the slider consumed an event.
#[derive(Clone, Copy, Debug, PartialEq, Eq, Structural)]
pub enum EventStatus {
    Captured,
    Ignored,
}

/// The slider's interaction state.
pub struct State {
    /// The keyboard modifiers last reported.
    pub keyboard_modifiers: Modifiers,
    /// Whether the parameter is being dragged. Resetting the parameter or
    /// entering a text value does not start a drag.
    pub drag_active: bool,
    /// Whether a start coordinate and value of a granular (shift) drag are
    /// recorded.
    pub granular_drag_active: bool,
    /// The text in the text entry; `None` when the entry is not shown.
    pub text_input_value: Option<String>,
}

/// The state after the check that starts every event: a text entry that has
/// lost its focus is closed.
pub open spec fn close_unfocused_text_input(s: State, text_input_focused: bool) -> State {
    if s.text_input_value is Some && !text_input_focused {
        State { text_input_value: None, ..s }
    } else {
        s
    }
}

/// The slider's answer to `e`: the next state, the actions to carry out and
/// whether the event was consumed. `text_input_focused` tells whether the
/// embedded text entry has the keyboard focus.
pub open spec fn on_event_spec(s0: State, e: SliderEvent, text_input_focused: bool) -> (
    State,
    Seq<SliderAction>,
    EventStatus,
) {
    let s = close_unfocused_text_input(s0, text_input_focused);
    let m = s.keyboard_modifiers;
    match e {
        SliderEvent::Pressed { inside, double_click, display_value } => {
            if !inside {
                (s, seq![], EventStatus::Ignored)
            } else if m.alt {
                (
                    State { drag_active: false, text_input_value: Some(display_value), ..s },
                    seq![SliderAction::RememberClick, SliderAction::SelectAllText],
                    EventStatus::Captured,
                )
            } else if m.command || double_click {
                (
                    State { drag_active: false, ..s },
                    seq![
                        SliderAction::RememberClick,
                        SliderAction::BeginSetParameter,
                        SliderAction::SetToDefault,
                        SliderAction::EndSetParameter,
                    ],
                    EventStatus::Captured,
                )
            } else if m.shift {
                (
                    State { drag_active: true, granular_drag_active: true, ..s },
                    seq![
                        SliderAction::RememberClick,
                        SliderAction::BeginSetParameter,
                        SliderAction::RecordGranularStart,
                    ],
                    EventStatus::Captured,
                )
            } else {
                (
                    State { drag_active: true, granular_drag_active: false, ..s },
                    seq![
                        SliderAction::RememberClick,
                        SliderAction::BeginSetParameter,
                        SliderAction::SetFromCursor,
                    ],
                    EventStatus::Captured,
                )
            }
        },
        SliderEvent::Released => {
            if s.drag_active {
                (
                    State { drag_active: false, ..s },
                    seq![SliderAction::EndSetParameter],
                    EventStatus::Captured,
                )
            } else {
                (s, seq![], EventStatus::Ignored)
            }
        },
        SliderEvent::Moved => {
            if !s.drag_active {
                (s, seq![], EventStatus::Ignored)
            } else if m.shift {
                (
                    State { granular_drag_active: true, ..s },
                    if s.granular_drag_active {
                        seq![SliderAction::SetFromGranularDrag]
                    } else {
                        seq![SliderAction::RecordGranularStart, SliderAction::SetFromGranularDrag]
                    },
                    EventStatus::Captured,
                )
            } else {
                (
                    State { granular_drag_active: false, ..s },
                    seq![SliderAction::SetFromCursor],
                    EventStatus::Captured,
                )
            }
        },
        SliderEvent::ModifiersChanged(new_modifiers) => {
            if s.drag_active && s.granular_drag_active && !new_modifiers.shift {
                (
                    State {
                        keyboard_modifiers: new_modifiers,
                        granular_drag_active: false,
                        ..s
                    },
                    seq![SliderAction::SetFromCursor],
                    EventStatus::Captured,
                )
            } else {
                (
                    State { keyboard_modifiers: new_modifiers, ..s },
                    seq![],
                    EventStatus::Captured,
                )
            }
        },
        SliderEvent::Other => (s, seq![], EventStatus::Ignored),
    }
}

/// The slider's answer to a message of its text entry: the next state and the
/// actions. `text_parses` tells whether the text in the entry, as it stands
/// before this message, parses as a value of the parameter. Submitting closes
/// the entry, and sets the parameter, inside a gesture of its own, when there
/// was a text and it parsed.
pub open spec fn text_message_spec(s: State, msg: TextInputMessage, text_parses: bool) -> (
    State,
    Seq<SliderAction>,
) {
    match msg {
        TextInputMessage::Value(text) => (State { text_input_value: Some(text), ..s }, seq![]),
        TextInputMessage::Submit => (
            State { text_input_value: None, ..s },
            if s.text_input_value is Some && text_parses {
                seq![
                    SliderAction::BeginSetParameter,
                    SliderAction::SetFromText,
                    SliderAction::EndSetParameter,
                ]
            } else {
                seq![]
            },
        ),
    }
}

impl State {
    /// A slider that is idle: no modifiers held, no drag, no text entry.
    pub fn new() -> (state: State)
        ensures
            state.keyboard_modifiers == (Modifiers { shift: false, command: false, alt: false }),
            !state.drag_active,
            !state.granular_drag_active,
            state.text_input_value is None,
    {
        State {
            keyboard_modifiers: Modifiers { shift: false, command: false, alt: false },
            drag_active: false,
            granular_drag_active: false,
            text_input_value: None,
        }
    }

    /// Handles an event: updates the state and returns the actions to carry
    /// out, in order, and whether the event was consumed, as
    /// `on_event_spec` states.
    pub fn on_event(&mut self, event: SliderEvent, text_input_focused: bool) -> (res: (
        Vec<SliderAction>,
        EventStatus,
    ))
        ensures
            ({
                let (s, actions, status) = on_event_spec(*old(self), event, text_input_focused);
                &&& *final(self) == s
                &&& res.0@ == actions
                &&& res.1 == status
            }),
    {
        if self.text_input_value.is_some() && !text_input_focused {
            self.text_input_value = None;
        }
        let mut actions: Vec<SliderAction> = Vec::new();
        let m = self.keyboard_modifiers;
        match event {
            SliderEvent::Pressed { inside, double_click, display_value } => {
                if !inside {
                    return (actions, EventStatus::Ignored);
                }
                actions.push(SliderAction::RememberClick);
                if m.alt {
                    // Alt+click opens the text entry instead of starting a drag.
                    self.drag_active = false;
                    self.text_input_value = Some(display_value);
                    actions.push(SliderAction::SelectAllText);
                } else if m.command || double_click {
                    // A reset does not let the parameter be dragged right away.
                    self.drag_active = false;
                    actions.push(SliderAction::BeginSetParameter);
                    actions.push(SliderAction::SetToDefault);
                    actions.push(SliderAction::EndSetParameter);
                } else if m.shift {
                    // Shift+click edits granularly, without jumping to the cursor.
                    actions.push(SliderAction::BeginSetParameter);
                    self.drag_active = true;
                    self.granular_drag_active = true;
                    actions.push(SliderAction::RecordGranularStart);
                } else {
                    actions.push(SliderAction::BeginSetParameter);
                    self.drag_active = true;
                    actions.push(SliderAction::SetFromCursor);
                    self.granular_drag_active = false;
                }
                assert(actions@ =~= on_event_spec(*old(self), event, text_input_focused).1);
                (actions, EventStatus::Captured)
            },
            SliderEvent::Released => {
                if self.drag_active {
                    actions.push(SliderAction::EndSetParameter);
                    self.drag_active = false;
                    assert(actions@ =~= seq![SliderAction::EndSetParameter]);
                    (actions, EventStatus::Captured)
                } else {
                    (actions, EventStatus::Ignored)
                }
            },
            SliderEvent::Moved => {
                if !self.drag_active {
                    return (actions, EventStatus::Ignored);
                }
                if m.shift {
                    if !self.granular_drag_active {
                        actions.push(SliderAction::RecordGranularStart);
                        self.granular_drag_active = true;
                    }
                    actions.push(SliderAction::SetFromGranularDrag);
                } else {
                    self.granular_drag_active = false;
                    actions.push(SliderAction::SetFromCursor);
                }
                assert(actions@ =~= on_event_spec(*old(self), event, text_input_focused).1);
                (actions, EventStatus::Captured)
            },
            SliderEvent::ModifiersChanged(new_modifiers) => {
                self.keyboard_modifiers = new_modifiers;
                // Leaving a granular drag snaps back to the cursor position.
                if self.drag_active && self.granular_drag_active && !new_modifiers.shift {
                    self.granular_drag_active = false;
                    actions.push(SliderAction::SetFromCursor);
                    assert(actions@ =~= seq![SliderAction::SetFromCursor]);
                }
                (actions, EventStatus::Captured)
            },
            SliderEvent::Other => (actions, EventStatus::Ignored),
        }
    }

    /// Whether messages of the text entry are taken into account before an
    /// event is handled: the entry is shown and has the keyboard focus.
    pub fn accepts_text_input_messages(&self, text_input_focused: bool) -> (accepts: bool)
        ensures
            accepts == (self.text_input_value is Some && text_input_focused),
    {
        self.text_input_value.is_some() && text_input_focused
    }

    /// Handles a message of the text entry, as `text_message_spec` states,
    /// and returns the actions to carry out.
    pub fn on_text_input_message(&mut self, msg: TextInputMessage, text_parses: bool) -> (actions: Vec<
        SliderAction,
    >)
        ensures
            ({
                let (s, expected) = text_message_spec(*old(self), msg, text_parses);
                &&& *final(self) == s
                &&& actions@ == expected
            }),
    {
        let mut actions: Vec<SliderAction> = Vec::new();
        match msg {
            TextInputMessage::Value(text) => {
                self.text_input_value = Some(text);
            },
            TextInputMessage::Submit => {
                if self.text_input_value.is_some() && text_parses {
                    actions.push(SliderAction::BeginSetParameter);
                    actions.push(SliderAction::SetFromText);
                    actions.push(SliderAction::EndSetParameter);
                }
                // The entry closes again after a submit.
                self.text_input_value = None;
                assert(actions@ =~= text_message_spec(*old(self), msg, text_parses).1);
            },
        }
        actions
    }

    /// Whether the bar is drawn with its highlighted background: the mouse is
    /// over it, it is being dragged, or its text entry is open.
    pub fn background_highlighted(&self, mouse_over: bool) -> (highlighted: bool)
        ensures
            highlighted == (mouse_over || self.drag_active || self.text_input_value is Some),
    {
        mouse_over || self.drag_active || self.text_input_value.is_some()
    }
}

} // verus!
