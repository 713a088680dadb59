//! The integer and timing logic of the horizontal peak meter: where the bar's
//! ticks stand, how the scale below it is labelled, and how long a peak value
//! stays on display.

use vstd::prelude::*;
use crate::decimal::{all_digits, decimal, digits_value, i32_to_decimal, law_decimal_reads_back};

verus! {

/// Distance in pixels between the starts of two neighbouring ticks of the bar:
/// one tick pixel and one pixel of space.
pub const TICK_STEP: i32 = 2;

/// The decibel values labelled on the scale below the bar.
pub open spec fn text_ticks_spec() -> Seq<i32> {
    seq![-80i32, -60i32, -40i32, -20i32, 0i32]
}

/// The decibel values labelled on the scale below the bar, lowest first. The
/// lowest of them stands for minus infinity.
pub fn text_ticks() -> (ticks: Vec<i32>)
    ensures
        ticks@ == text_ticks_spec(),
{
    let mut ticks: Vec<i32> = Vec::new();
    ticks.push(-80);
    ticks.push(-60);
    ticks.push(-40);
    ticks.push(-20);
    ticks.push(0);
    assert(ticks@ =~= text_ticks_spec());
    ticks
}

/// The text under a scale tick: `-inf` for the lowest tick, the decibel value
/// in decimal for the others.
pub open spec fn tick_label_spec(tick_db: i32) -> Seq<char> {
    if tick_db == text_ticks_spec()[0] {
        seq!['-', 'i', 'n', 'f']
    } else {
        decimal(tick_db as int)
    }
}

/// The label drawn under the scale tick at `tick_db` decibels.
pub fn tick_label(tick_db: i32) -> (label: String)
    ensures
        label@ == tick_label_spec(tick_db),
{
    if tick_db == -80 {
        proof {
            reveal_strlit("-inf");
        }
        let label = String::from_str("-inf");
        assert(label@ =~= seq!['-', 'i', 'n', 'f']);
        label
    } else {
        i32_to_decimal(tick_db)
    }
}

/// The number of ticks in `start..end` taken every `TICK_STEP` pixels.
pub open spec fn bar_tick_count(start: i32, end: i32) -> nat {
    if start < end {
        ((end - start + 1) / 2) as nat
    } else {
        0
    }
}

/// The x coordinates of the bar's ticks: every `TICK_STEP`-th pixel of
/// `start..end`, starting with `start`.
pub open spec fn bar_tick_coordinates_spec(start: i32, end: i32) -> Seq<i32> {
    Seq::new(bar_tick_count(start, end), |i: int| (start + TICK_STEP * i) as i32)
}

/// The x coordinates at which the bar's ticks are drawn, left to right, for a
/// bar whose ticks span the pixels `start..end`.
pub fn bar_tick_coordinates(start: i32, end: i32) -> (ticks: Vec<i32>)
    ensures
        ticks@ == bar_tick_coordinates_spec(start, end),
{
    let mut ticks: Vec<i32> = Vec::new();
    let mut x: i64 = start as i64;
    while x < end as i64
        invariant
            start <= x,
            x > start ==> x <= end as i64 + 1,
            (x - start) % 2 == 0,
            ticks@.len() == (x - start) / 2,
            forall|i: int| 0 <= i < ticks@.len() ==> ticks@[i] == start + TICK_STEP * i,
        decreases end + 2 - x,
    {
        ticks.push(x as i32);
        x = x + 2;
    }
    assert(ticks@ =~= bar_tick_coordinates_spec(start, end));
    ticks
}

/// The peak-hold memory of a meter: the last held peak value and the time,
/// in nanoseconds on a monotonic clock, at which it was taken. `T` is the type
/// of the meter's decibel values. The type is `Copy` so that the widget can
/// keep it in an atomic cell and update it while drawing.
#[derive(Clone, Copy, Debug)]
pub struct State<T> {
    /// The last peak value.
    pub held_peak_value_db: T,
    /// When the last peak value was taken, if ever.
    pub last_held_peak_value: Option<u64>,
}

/// Whether the held peak is replaced when the meter is drawn at `now`: the
/// current value reaches the held one, nothing was held yet, or the hold time
/// has passed since the peak was taken.
pub open spec fn peak_expires(
    current_reaches_held: bool,
    last: Option<u64>,
    now: u64,
    hold_time: u64,
) -> bool {
    ||| current_reaches_held
    ||| last is None
    ||| now > last.unwrap() + hold_time
}

/// The memory and the value to draw after a draw at `now` with the current
/// value `current_db`: when the held peak expires, the current value taken at
/// `now` replaces it; otherwise the memory stays as it is.
pub open spec fn hold_peak_spec<T>(
    s: State<T>,
    current_db: T,
    current_reaches_held: bool,
    now: u64,
    hold_time: u64,
) -> (State<T>, T) {
    if peak_expires(current_reaches_held, s.last_held_peak_value, now, hold_time) {
        (State { held_peak_value_db: current_db, last_held_peak_value: Some(now) }, current_db)
    } else {
        (s, s.held_peak_value_db)
    }
}

impl<T: Copy> State<T> {
    /// A meter memory holding `initial` and no time of a peak yet.
    pub fn new(initial: T) -> (state: Self)
        ensures
            state.held_peak_value_db == initial,
            state.last_held_peak_value is None,
    {
        State { held_peak_value_db: initial, last_held_peak_value: None }
    }

    /// Updates the held peak for a draw at `now` (nanoseconds) with the
    /// meter's current value `current_db`, and returns the peak value to
    /// draw, as `hold_peak_spec` states. `current_reaches_held` is whether
    /// `current_db` is at least the held value.
    pub fn hold_peak(&mut self, current_db: T, current_reaches_held: bool, now: u64, hold_time: u64) -> (shown_db: T)
        ensures
            (*final(self), shown_db) == hold_peak_spec(
                *old(self),
                current_db,
                current_reaches_held,
                now,
                hold_time,
            ),
    {
        let expired = match self.last_held_peak_value {
            None => true,
            Some(last) => now > last && now - last > hold_time,
        };
        if current_reaches_held || expired {
            self.held_peak_value_db = current_db;
            self.last_held_peak_value = Some(now);
        }
        self.held_peak_value_db
    }
}

/// The meter never shows a held peak below the current value: whenever the
/// current value reaches the held one, the current value is shown and held.
pub proof fn law_peak_never_below_current<T>(
    s: State<T>,
    current_db: T,
    now: u64,
    hold_time: u64,
)
    ensures
        ({
            let (next, shown) = hold_peak_spec(s, current_db, true, now, hold_time);
            &&& shown == current_db
            &&& next.held_peak_value_db == current_db
            &&& next.last_held_peak_value == Some(now)
        }),
{
}

/// A peak taken at `taken` stays on display, against lower values, for the
/// whole hold time: a later draw at `now`, no later than `taken + hold_time`,
/// with a current value below the held one shows the held peak and keeps it.
pub proof fn law_peak_held_for_hold_time<T>(
    s: State<T>,
    peak_db: T,
    taken: u64,
    current_db: T,
    now: u64,
    hold_time: u64,
)
    requires
        taken <= now <= taken + hold_time,
    ensures
        ({
            let (held, _) = hold_peak_spec(s, peak_db, true, taken, hold_time);
            let (next, shown) = hold_peak_spec(held, current_db, false, now, hold_time);
            &&& shown == peak_db
            &&& next == held
        }),
{
}

/// Once the hold time has passed since the peak was taken, the next draw
/// shows and holds the current value, whatever it is.
pub proof fn law_peak_released_after_hold_time<T>(
    s: State<T>,
    peak_db: T,
    taken: u64,
    current_db: T,
    current_reaches_held: bool,
    now: u64,
    hold_time: u64,
)
    requires
        now > taken + hold_time,
    ensures
        ({
            let (held, _) = hold_peak_spec(s, peak_db, true, taken, hold_time);
            let (next, shown) = hold_peak_spec(held, current_db, current_reaches_held, now, hold_time);
            &&& shown == current_db
            &&& next.last_held_peak_value == Some(now)
        }),
{
}

/// What a draw does to the held peak, from its inputs alone: the value shown
/// is always the value held afterwards. The current value, taken at `now`,
/// replaces the held one when it reaches it, when nothing was held yet, or
/// when more than the hold time has passed since the held peak was taken;
/// otherwise the memory stays exactly as it was.
pub proof fn law_peak_hold_behaviour<T>(
    s: State<T>,
    current_db: T,
    current_reaches_held: bool,
    now: u64,
    hold_time: u64,
)
    ensures
        ({
            let (next, shown) = hold_peak_spec(s, current_db, current_reaches_held, now, hold_time);
            &&& shown == next.held_peak_value_db
            &&& (current_reaches_held || s.last_held_peak_value is None || now
                > s.last_held_peak_value.unwrap() + hold_time) ==> {
                &&& next.held_peak_value_db == current_db
                &&& next.last_held_peak_value == Some(now)
            }
            &&& (!current_reaches_held && s.last_held_peak_value is Some && now
                <= s.last_held_peak_value.unwrap() + hold_time) ==> next == s
        }),
{
}

/// The label of every scale tick but the lowest is its decibel value written
/// in decimal: a minus sign exactly for negative values, then digits whose
/// value is the tick's magnitude.
pub proof fn law_tick_labels_name_their_value(tick_db: i32)
    ensures
        tick_db == -80 ==> tick_label_spec(tick_db) == seq!['-', 'i', 'n', 'f'],
        tick_db != -80 ==> {
            let label = tick_label_spec(tick_db);
            &&& tick_db < 0 ==> label[0] == '-' && digits_value(label.drop_first())
                == -tick_db
            &&& tick_db >= 0 ==> digits_value(label) == tick_db && all_digits(label)
        },
{
    law_decimal_reads_back(tick_db as int);
}

/// The bar's ticks lie within the bar, left to right, two pixels apart (one
/// tick pixel and one pixel of space), the first at the bar's start, and leave
/// no room for another tick before its end.
pub proof fn law_bar_ticks_within_bar(start: i32, end: i32)
    ensures
        ({
            let ticks = bar_tick_coordinates_spec(start, end);
            &&& forall|i: int| 0 <= i < ticks.len() ==> start <= #[trigger] ticks[i] < end
            &&& forall|i: int| 0 < i < ticks.len() ==> #[trigger] ticks[i] == ticks[i - 1] + 2
            &&& start < end ==> ticks.len() > 0 && ticks[0] == start
            &&& ticks.len() > 0 ==> ticks.last() + 2 >= end
            &&& start >= end ==> ticks.len() == 0
        }),
{
}

} // verus!
