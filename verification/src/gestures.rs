//! What the slider promises about parameter change gestures: the host sees a
//! parameter change only between a begin and an end message, gestures never
//! nest, and the begin and end messages pair up with the slider's drag state,
//! over single events and over whole runs of events and text entry messages.
//! The pairing and no-nesting laws hold for every run without a press inside
//! the slider (or a submit of its text entry) during a drag.

use vstd::prelude::*;
use crate::param_slider::{
    close_unfocused_text_input, on_event_spec, text_message_spec, EventStatus, SliderAction,
    SliderEvent, State, TextInputMessage,
};

verus! {

/// The number of gestures that the slider's state says are open: one while a
/// drag is active, none otherwise.
pub open spec fn gesture_depth(s: State) -> int {
    if s.drag_active {
        1
    } else {
        0
    }
}

/// Whether an action sets the parameter's value.
pub open spec fn is_parameter_change(a: SliderAction) -> bool {
    ||| a is SetToDefault
    ||| a is SetFromCursor
    ||| a is SetFromGranularDrag
    ||| a is SetFromText
}

/// How an action changes the number of open gestures.
pub open spec fn gesture_step(a: SliderAction) -> int {
    match a {
        SliderAction::BeginSetParameter => 1,
        SliderAction::EndSetParameter => -1,
        _ => 0,
    }
}

/// Begin messages minus end messages in `actions`.
pub open spec fn net_gestures(actions: Seq<SliderAction>) -> int
    decreases actions.len(),
{
    if actions.len() == 0 {
        0
    } else {
        gesture_step(actions[0]) + net_gestures(actions.drop_first())
    }
}

/// Whether, starting with `depth` open gestures, every end message and every
/// parameter change in `actions` comes while at least one gesture is open.
pub open spec fn well_bracketed(depth: int, actions: Seq<SliderAction>) -> bool
    decreases actions.len(),
{
    if actions.len() == 0 {
        true
    } else {
        &&& (actions[0] is EndSetParameter || is_parameter_change(actions[0])) ==> depth >= 1
        &&& well_bracketed(depth + gesture_step(actions[0]), actions.drop_first())
    }
}

/// One input to the slider: an event, with whether the text entry has the
/// keyboard focus, or a message of the text entry, with whether the entry's
/// text parses as a parameter value.
pub enum SliderInput {
    Event(SliderEvent, bool),
    TextMessage(TextInputMessage, bool),
}

/// The state and actions after one input.
pub open spec fn input_step(s: State, input: SliderInput) -> (State, Seq<SliderAction>) {
    match input {
        SliderInput::Event(e, focused) => {
            let (next, actions, _) = on_event_spec(s, e, focused);
            (next, actions)
        },
        SliderInput::TextMessage(msg, parses) => text_message_spec(s, msg, parses),
    }
}

/// The final state and all actions, in order, after a run of inputs.
pub open spec fn run(s: State, inputs: Seq<SliderInput>) -> (State, Seq<SliderAction>)
    decreases inputs.len(),
{
    if inputs.len() == 0 {
        (s, seq![])
    } else {
        let (next, first) = input_step(s, inputs[0]);
        let (last, rest) = run(next, inputs.drop_first());
        (last, first + rest)
    }
}

/// Whether a press inside the slider can begin a new gesture while another
/// one is still open: it is inside the bounds while a drag is active.
pub open spec fn press_during_drag(s: State, input: SliderInput) -> bool {
    &&& input matches SliderInput::Event(SliderEvent::Pressed { inside, .. }, _)
    &&& inside
    &&& s.drag_active
}

/// Whether no input of the run is a press inside the slider while it is being
/// dragged.
pub open spec fn no_press_during_drag(s: State, inputs: Seq<SliderInput>) -> bool
    decreases inputs.len(),
{
    if inputs.len() == 0 {
        true
    } else {
        &&& !press_during_drag(s, inputs[0])
        &&& no_press_during_drag(input_step(s, inputs[0]).0, inputs.drop_first())
    }
}

proof fn lemma_net_append(a: Seq<SliderAction>, b: Seq<SliderAction>)
    ensures
        net_gestures(a + b) == net_gestures(a) + net_gestures(b),
    decreases a.len(),
{
    if a.len() == 0 {
        assert(a + b =~= b);
    } else {
        assert((a + b).drop_first() =~= a.drop_first() + b);
        lemma_net_append(a.drop_first(), b);
    }
}

proof fn lemma_bracketed_append(depth: int, a: Seq<SliderAction>, b: Seq<SliderAction>)
    requires
        well_bracketed(depth, a),
        well_bracketed(depth + net_gestures(a), b),
    ensures
        well_bracketed(depth, a + b),
    decreases a.len(),
{
    if a.len() == 0 {
        assert(a + b =~= b);
    } else {
        assert((a + b).drop_first() =~= a.drop_first() + b);
        assert((a + b)[0] == a[0]);
        lemma_bracketed_append(depth + gesture_step(a[0]), a.drop_first(), b);
    }
}

/// Every event leaves the begin and end messages paired with the drag state:
/// the open gestures after the event are those before it plus the begin
/// messages minus the end messages it sends. The one exception is a press
/// inside the slider while it is already being dragged, which the slider
/// answers as if no drag were open.
pub proof fn law_event_keeps_gestures_paired(s: State, e: SliderEvent, text_input_focused: bool)
    requires
        !press_during_drag(s, SliderInput::Event(e, text_input_focused)),
    ensures
        ({
            let (next, actions, _) = on_event_spec(s, e, text_input_focused);
            gesture_depth(next) == gesture_depth(s) + net_gestures(actions)
        }),
{
    reveal_with_fuel(net_gestures, 5);
}

/// Every event sends parameter changes and end messages only while a gesture
/// is open: one that the drag state says is open, or one that the event
/// itself began.
pub proof fn law_event_changes_only_inside_gestures(
    s: State,
    e: SliderEvent,
    text_input_focused: bool,
)
    ensures
        well_bracketed(gesture_depth(s), on_event_spec(s, e, text_input_focused).1),
{
    reveal_with_fuel(well_bracketed, 5);
}

/// A message of the text entry never leaves a gesture open or closes one that
/// it did not begin, and sets the parameter only inside its own gesture.
pub proof fn law_text_message_gestures(s: State, msg: TextInputMessage, text_parses: bool)
    ensures
        ({
            let (next, actions) = text_message_spec(s, msg, text_parses);
            &&& gesture_depth(next) == gesture_depth(s)
            &&& net_gestures(actions) == 0
            &&& well_bracketed(0, actions)
        }),
{
    reveal_with_fuel(net_gestures, 4);
    reveal_with_fuel(well_bracketed, 4);
}

/// An event that the slider ignores asks for nothing and changes nothing,
/// beyond closing a text entry that has lost its focus.
pub proof fn law_ignored_event_changes_nothing(s: State, e: SliderEvent, text_input_focused: bool)
    ensures
        ({
            let (next, actions, status) = on_event_spec(s, e, text_input_focused);
            status == EventStatus::Ignored ==> {
                &&& actions == Seq::<SliderAction>::empty()
                &&& next == close_unfocused_text_input(s, text_input_focused)
            }
        }),
{
}

/// Resetting the parameter (command+click or double click) and opening the
/// text entry (alt+click) never leave a drag active, and releasing the button
/// always ends one.
pub proof fn law_reset_text_entry_and_release_end_drags(
    s: State,
    e: SliderEvent,
    text_input_focused: bool,
)
    ensures
        ({
            let (next, _, _) = on_event_spec(s, e, text_input_focused);
            let m = s.keyboard_modifiers;
            &&& (e matches SliderEvent::Pressed { inside, double_click, .. } && inside && (m.alt
                || m.command || double_click)) ==> !next.drag_active
            &&& e is Released ==> !next.drag_active
        }),
{
}

/// Over any run of events and text entry messages without a press inside the
/// slider during a drag, the begin and end messages stay paired with the drag
/// state, and every parameter change and end message comes inside an open
/// gesture. In particular a run that starts and ends without a drag sends as
/// many end messages as begin messages.
pub proof fn law_runs_keep_gestures_paired(s: State, inputs: Seq<SliderInput>)
    requires
        no_press_during_drag(s, inputs),
    ensures
        ({
            let (last, actions) = run(s, inputs);
            &&& gesture_depth(last) == gesture_depth(s) + net_gestures(actions)
            &&& well_bracketed(gesture_depth(s), actions)
        }),
    decreases inputs.len(),
{
    if inputs.len() > 0 {
        let (next, first) = input_step(s, inputs[0]);
        let (last, rest) = run(next, inputs.drop_first());
        match inputs[0] {
            SliderInput::Event(e, focused) => {
                law_event_keeps_gestures_paired(s, e, focused);
                law_event_changes_only_inside_gestures(s, e, focused);
            },
            SliderInput::TextMessage(msg, parses) => {
                law_text_message_gestures(s, msg, parses);
                lemma_bracketed_monotonic(0, gesture_depth(s), first);
            },
        }
        law_runs_keep_gestures_paired(next, inputs.drop_first());
        lemma_net_append(first, rest);
        lemma_bracketed_append(gesture_depth(s), first, rest);
    }
}

/// Whether, starting with `depth` (zero or one) open gestures, `actions`
/// send gestures one at a time: a begin message only while no gesture is
/// open, and an end message or a parameter change only while one is. Such a
/// sequence has the form `(Begin Set* End)* (Begin Set*)?` once the actions
/// that send no parameter message are left out, and at most one gesture is
/// ever open.
pub open spec fn single_gestures(depth: int, actions: Seq<SliderAction>) -> bool
    decreases actions.len(),
{
    if actions.len() == 0 {
        true
    } else {
        &&& actions[0] is BeginSetParameter ==> depth == 0
        &&& (actions[0] is EndSetParameter || is_parameter_change(actions[0])) ==> depth == 1
        &&& single_gestures(depth + gesture_step(actions[0]), actions.drop_first())
    }
}

/// Whether an input could begin a gesture while one is open: a press inside
/// the slider, or a submit of the text entry, while a drag is active.
pub open spec fn may_nest(s: State, input: SliderInput) -> bool {
    ||| press_during_drag(s, input)
    ||| (input matches SliderInput::TextMessage(TextInputMessage::Submit, _) && s.drag_active)
}

/// Whether no input of the run could begin a gesture while one is open.
pub open spec fn no_nesting_input(s: State, inputs: Seq<SliderInput>) -> bool
    decreases inputs.len(),
{
    if inputs.len() == 0 {
        true
    } else {
        &&& !may_nest(s, inputs[0])
        &&& no_nesting_input(input_step(s, inputs[0]).0, inputs.drop_first())
    }
}

proof fn lemma_single_gestures_append(depth: int, a: Seq<SliderAction>, b: Seq<SliderAction>)
    requires
        single_gestures(depth, a),
        single_gestures(depth + net_gestures(a), b),
    ensures
        single_gestures(depth, a + b),
    decreases a.len(),
{
    if a.len() == 0 {
        assert(a + b =~= b);
    } else {
        assert((a + b).drop_first() =~= a.drop_first() + b);
        assert((a + b)[0] == a[0]);
        lemma_single_gestures_append(depth + gesture_step(a[0]), a.drop_first(), b);
    }
}

/// No event begins a gesture while one is open, unless it is a press inside
/// the slider during a drag: each event sends its begin, change and end
/// messages one gesture at a time, continuing the gesture that the drag
/// state says is open.
pub proof fn law_event_never_nests_gestures(s: State, e: SliderEvent, text_input_focused: bool)
    requires
        !press_during_drag(s, SliderInput::Event(e, text_input_focused)),
    ensures
        single_gestures(gesture_depth(s), on_event_spec(s, e, text_input_focused).1),
{
    reveal_with_fuel(single_gestures, 5);
}

/// A message of the text entry sends a gesture of its own only when no drag
/// is open, unless it is a submit during a drag.
pub proof fn law_text_message_never_nests_gestures(
    s: State,
    msg: TextInputMessage,
    text_parses: bool,
)
    requires
        !(msg is Submit && s.drag_active),
    ensures
        single_gestures(gesture_depth(s), text_message_spec(s, msg, text_parses).1),
{
    reveal_with_fuel(single_gestures, 4);
}

/// Gestures never nest: over any run of inputs in which no press inside the
/// slider and no submit of the text entry arrives during a drag, no begin
/// message is sent while a gesture is open, every parameter change and end
/// message falls inside the one open gesture, and the gesture left open at
/// the end is open exactly when the slider is still being dragged. Starting
/// from an idle slider (as `State::new` makes it), the messages sent so far
/// are therefore `(Begin Set* End)* (Begin Set*)?`, with the trailing open
/// gesture present exactly while a drag is active.
pub proof fn law_runs_never_nest_gestures(s: State, inputs: Seq<SliderInput>)
    requires
        no_nesting_input(s, inputs),
    ensures
        ({
            let (last, actions) = run(s, inputs);
            &&& single_gestures(gesture_depth(s), actions)
            &&& gesture_depth(last) == gesture_depth(s) + net_gestures(actions)
            &&& !s.drag_active ==> (last.drag_active <==> net_gestures(actions) == 1)
        }),
    decreases inputs.len(),
{
    if inputs.len() > 0 {
        let (next, first) = input_step(s, inputs[0]);
        let (last, rest) = run(next, inputs.drop_first());
        match inputs[0] {
            SliderInput::Event(e, focused) => {
                law_event_keeps_gestures_paired(s, e, focused);
                law_event_never_nests_gestures(s, e, focused);
            },
            SliderInput::TextMessage(msg, parses) => {
                law_text_message_gestures(s, msg, parses);
                law_text_message_never_nests_gestures(s, msg, parses);
            },
        }
        law_runs_never_nest_gestures(next, inputs.drop_first());
        lemma_net_append(first, rest);
        lemma_single_gestures_append(gesture_depth(s), first, rest);
    }
}

proof fn lemma_bracketed_monotonic(low: int, high: int, actions: Seq<SliderAction>)
    requires
        low <= high,
        well_bracketed(low, actions),
    ensures
        well_bracketed(high, actions),
    decreases actions.len(),
{
    if actions.len() > 0 {
        lemma_bracketed_monotonic(
            low + gesture_step(actions[0]),
            high + gesture_step(actions[0]),
            actions.drop_first(),
        );
    }
}

} // verus!
