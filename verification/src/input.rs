//! Per-action input bookkeeping: how long an action has been held or released,
//! and the queries the game makes on it (first press, repeat, cooldown, release).
use std::time::Instant;
use vstd::prelude::*;

use crate::clock::{millis_elapsed_since, millis_since};
use crate::registry::Registry;

verus! {

/// Bit mask that clears the sign of an `f32` bit pattern.
pub const MAGNITUDE_MASK: u32 = 0x7fff_ffff;

/// Bit pattern of the `f32` value `0.3`, the axis magnitude from which an axis counts as pressed.
pub const PRESS_THRESHOLD_BITS: u32 = 0x3e99_999a;

/// Bit pattern of `f32::INFINITY`; magnitudes above it are NaN.
pub const INFINITY_BITS: u32 = 0x7f80_0000;

/// An axis value, given as the bit pattern of an `f32`, counts as pressed when
/// its magnitude is at least `0.3`. NaN is never pressed. For non-NaN floats the
/// order of magnitudes is the order of their bit patterns with the sign cleared.
pub open spec fn axis_is_pressed(axis_bits: u32) -> bool {
    let magnitude = axis_bits & MAGNITUDE_MASK;
    PRESS_THRESHOLD_BITS <= magnitude && magnitude <= INFINITY_BITS
}

/// What the queries read of an action's statistics.
#[derive(Clone, Copy, Debug, PartialEq, Eq, Structural)]
pub struct StatisticsView {
    pub same_action_frame_count: u32,
    pub action_is_down: bool,
    /// Whether the action was down before its latest update.
    pub was_down: bool,
    pub action_axis_value: u32,
}

/// The statistics of an action that was never updated.
pub open spec fn initial_statistics() -> StatisticsView {
    StatisticsView { same_action_frame_count: 0, action_is_down: false, was_down: false, action_axis_value: 0 }
}

/// Information used to track input state.
#[derive(Clone, Copy)]
pub struct InputStatistics {
    /// Updates every time the input is released.
    pub(crate) last_released: Instant,
    /// Updates whenever the input switches from released to down.
    pub(crate) last_pressed: Instant,
    /// Number of updates the input has been in its current state for.
    pub(crate) same_action_frame_count: u32,
    /// `true` if the input is being pressed.
    pub(crate) action_is_down: bool,
    /// `true` if the input was being pressed before its latest update.
    pub(crate) was_down: bool,
    /// The axis value (bit pattern of an `f32` in `[-1.0, 1.0]`), `0.0` for other input.
    pub(crate) action_axis_value: u32,
}

impl View for InputStatistics {
    type V = StatisticsView;

    closed spec fn view(&self) -> StatisticsView {
        StatisticsView {
            same_action_frame_count: self.same_action_frame_count,
            action_is_down: self.action_is_down,
            was_down: self.was_down,
            action_axis_value: self.action_axis_value,
        }
    }
}

impl Default for InputStatistics {
    fn default() -> (r: Self)
        ensures
            r@ == initial_statistics(),
    {
        InputStatistics {
            last_released: Instant::now(),
            last_pressed: Instant::now(),
            same_action_frame_count: 0,
            action_is_down: false,
            was_down: false,
            action_axis_value: 0,
        }
    }
}

impl InputStatistics {
    /// The clock reading taken when the input last went down.
    pub closed spec fn pressed_at(&self) -> Instant {
        self.last_pressed
    }

    /// The clock reading taken when the input was last released.
    pub closed spec fn released_at(&self) -> Instant {
        self.last_released
    }

    /// Stores the axis value (bit pattern of an `f32`) and returns whether it is
    /// far enough from zero to count as pressed.
    pub fn set_axis_value(&mut self, axis_value: u32) -> (pressed: bool)
        ensures
            pressed == axis_is_pressed(axis_value),
            final(self)@ == (StatisticsView {
                action_axis_value: axis_value,
                action_is_down: pressed,
                ..old(self)@
            }),
            final(self).pressed_at() == old(self).pressed_at(),
            final(self).released_at() == old(self).released_at(),
    {
        self.action_axis_value = axis_value;
        let magnitude = axis_value & MAGNITUDE_MASK;
        if PRESS_THRESHOLD_BITS <= magnitude && magnitude <= INFINITY_BITS {
            self.action_is_down = true;
        } else {
            self.action_is_down = false;
        }
        self.action_is_down
    }
}

/// Represents the input status given the desired restrictions.
#[derive(Clone, Copy, Debug, PartialEq, Eq, Structural)]
pub struct InputResult {
    /// True if all conditions are met and the input is being pressed.
    pub is_down: bool,
    /// Bit pattern of the `f32` axis value in `[-1.0, 1.0]` if all conditions
    /// are met, of `0.0` if any is not.
    pub axis: u32,
}

impl Default for InputResult {
    fn default() -> (r: Self)
        ensures
            r == InputResult::none(),
    {
        InputResult { is_down: false, axis: 0 }
    }
}

impl InputResult {
    /// The result of a query whose conditions are not met.
    pub open spec fn none() -> InputResult {
        InputResult { is_down: false, axis: 0 }
    }

    /// The result of a query whose conditions are met: the current status.
    pub open spec fn of(stats: StatisticsView) -> InputResult {
        InputResult { is_down: stats.action_is_down, axis: stats.action_axis_value }
    }

    pub(crate) fn new(stats: &InputStatistics) -> (r: Self)
        ensures
            r == Self::of(stats@),
    {
        InputResult { is_down: stats.action_is_down, axis: stats.action_axis_value }
    }
}

/// What the queries read of an `InputManager`.
pub struct InputManagerView {
    pub frame_counter: u128,
    pub statistics: Map<Seq<char>, StatisticsView>,
}

/// The statistics of an action after one update with `is_down`.
pub open spec fn updated_statistics(s: StatisticsView, is_down: bool) -> StatisticsView {
    if is_down {
        StatisticsView {
            same_action_frame_count: if s.action_is_down {
                (s.same_action_frame_count + 1) as u32
            } else {
                1
            },
            action_is_down: true,
            was_down: s.action_is_down,
            action_axis_value: s.action_axis_value,
        }
    } else {
        StatisticsView {
            same_action_frame_count: if s.action_is_down {
                1
            } else {
                (s.same_action_frame_count + 1) as u32
            },
            action_is_down: false,
            was_down: s.action_is_down,
            action_axis_value: 0,
        }
    }
}

impl InputManagerView {
    /// The manager after `action` was updated with `is_down`.
    pub open spec fn update(self, action: Seq<char>, is_down: bool) -> InputManagerView {
        InputManagerView {
            frame_counter: (self.frame_counter + 1) as u128,
            statistics: self.statistics.insert(
                action,
                updated_statistics(self.statistics[action], is_down),
            ),
        }
    }

    /// Whether `action` can be updated without a counter overflowing.
    pub open spec fn can_update(self, action: Seq<char>, is_down: bool) -> bool {
        &&& self.statistics.contains_key(action)
        &&& self.frame_counter < u128::MAX
        &&& (self.statistics[action].same_action_frame_count < u32::MAX
            || self.statistics[action].action_is_down != is_down)
    }

    /// The current status of `action`, without extra conditions.
    pub open spec fn status(self, action: Seq<char>) -> InputResult {
        if self.statistics.contains_key(action) {
            InputResult::of(self.statistics[action])
        } else {
            InputResult::none()
        }
    }

    /// Whether `action` was released on its latest update: it was down before
    /// that update and is not down after it.
    pub open spec fn just_released(self, action: Seq<char>) -> bool {
        &&& self.statistics.contains_key(action)
        &&& self.statistics[action].was_down
        &&& !self.statistics[action].action_is_down
    }

    /// The single-press query: positive only on the update on which `action`
    /// went down after having been released.
    pub open spec fn single_press(self, action: Seq<char>) -> InputResult {
        if self.statistics.contains_key(action) {
            let s = self.statistics[action];
            if s.action_is_down && s.same_action_frame_count == 1 {
                InputResult::of(s)
            } else {
                InputResult::none()
            }
        } else {
            InputResult::none()
        }
    }

    /// The repeat-press query when `elapsed` milliseconds passed since the press
    /// began: positive on the first update of a press, and after the delay on
    /// every update whose number is a multiple of the period. A zero period
    /// never counts as a repeat update.
    pub open spec fn repeat_press(
        self,
        action: Seq<char>,
        elapsed: u128,
        repeat_delay_millis: u128,
        repeat_every_x_frames: u128,
    ) -> InputResult {
        if self.statistics.contains_key(action) {
            let s = self.statistics[action];
            if s.action_is_down && (s.same_action_frame_count == 1 || (elapsed
                >= repeat_delay_millis && repeat_every_x_frames != 0 && self.frame_counter
                % repeat_every_x_frames == 0)) {
                InputResult::of(s)
            } else {
                InputResult::none()
            }
        } else {
            InputResult::none()
        }
    }

    /// The cooldown query when `elapsed` milliseconds passed since the latest
    /// release: positive while down once the cooldown has passed.
    pub open spec fn cooldown_press(self, action: Seq<char>, elapsed: u128, cooldown_millis: u128) -> InputResult {
        if self.statistics.contains_key(action) {
            let s = self.statistics[action];
            if s.action_is_down && elapsed >= cooldown_millis {
                InputResult::of(s)
            } else {
                InputResult::none()
            }
        } else {
            InputResult::none()
        }
    }
}

/// Wrapper that handles queries on the different types of input.
pub struct InputManager {
    pub frame_counter: u128,
    pub(crate) statistics: Registry<InputStatistics>,
}

impl View for InputManager {
    type V = InputManagerView;

    closed spec fn view(&self) -> InputManagerView {
        InputManagerView {
            frame_counter: self.frame_counter,
            statistics: self.statistics.map().map_values(|s: InputStatistics| s@),
        }
    }
}

impl InputManager {
    /// The statistics are well formed.
    pub closed spec fn wf(&self) -> bool {
        self.statistics.wf()
    }

    /// The clock reading taken when `action` last went down.
    pub closed spec fn pressed_at(&self, action: Seq<char>) -> Instant {
        self.statistics.map()[action].pressed_at()
    }

    /// The clock reading taken when `action` was last released.
    pub closed spec fn released_at(&self, action: Seq<char>) -> Instant {
        self.statistics.map()[action].released_at()
    }

    /// Every registered action keeps its clock readings in `after`, but the
    /// press reading of `pressed` and the release reading of `released`.
    pub open spec fn keeps_readings_but(
        &self,
        after: &InputManager,
        pressed: Option<Seq<char>>,
        released: Option<Seq<char>>,
    ) -> bool {
        &&& forall|a: Seq<char>|
            self@.statistics.contains_key(a) && pressed != Some(a) ==> #[trigger] after.pressed_at(a)
                == self.pressed_at(a)
        &&& forall|a: Seq<char>|
            self@.statistics.contains_key(a) && released != Some(a) ==> #[trigger] after.released_at(a)
                == self.released_at(a)
    }

    /// The position of `action`, with the statistics found there.
    fn find(&self, action: &String) -> (r: Option<usize>)
        requires
            self.wf(),
        ensures
            match r {
                Some(i) => i < self.statistics.len() && self.statistics.key_at(i as int) == action@
                    && self@.statistics.contains_key(action@)
                    && self.statistics.map()[action@] == self.statistics.value_at(i as int)
                    && self@.statistics[action@] == self.statistics.value_at(i as int)@,
                None => !self@.statistics.contains_key(action@),
            },
    {
        self.statistics.find(action)
    }

    /// Replacing the statistics of `action` keeps the clock readings of every
    /// other registered action.
    proof fn lemma_readings_after_replace(&self, before: InputManager, action: Seq<char>)
        requires
            before@.statistics.contains_key(action),
            self.statistics.map() == before.statistics.map().insert(action, self.statistics.map()[action]),
        ensures
            forall|a: Seq<char>|
                before@.statistics.contains_key(a) && a != action ==> #[trigger] self.pressed_at(a)
                    == before.pressed_at(a) && self.released_at(a) == before.released_at(a),
    {
        assert forall|a: Seq<char>|
            before@.statistics.contains_key(a) && a != action implies #[trigger] self.pressed_at(a)
                == before.pressed_at(a) && self.released_at(a) == before.released_at(a) by {
            assert(before.statistics.map().contains_key(a));
            assert(self.statistics.map()[a] == before.statistics.map()[a]);
        }
    }

    /// A manager with no registered action.
    pub fn new() -> (r: Self)
        ensures
            r.wf(),
            r@.frame_counter == 0,
            r@.statistics == Map::<Seq<char>, StatisticsView>::empty(),
    {
        let r = InputManager { frame_counter: 0, statistics: Registry::new() };
        assert(r@.statistics =~= Map::<Seq<char>, StatisticsView>::empty());
        r
    }

    /// Registers `action` with fresh statistics, replacing any it had.
    pub fn insert_action(&mut self, action: String)
        requires
            old(self).wf(),
        ensures
            final(self).wf(),
            final(self)@.frame_counter == old(self)@.frame_counter,
            final(self)@.statistics == old(self)@.statistics.insert(action@, initial_statistics()),
            old(self).keeps_readings_but(final(self), Some(action@), Some(action@)),
    {
        let ghost old_self = *self;
        let ghost key = action@;
        let stats = InputStatistics::default();
        self.statistics.insert(action, stats);
        assert(self@.statistics =~= old_self@.statistics.insert(key, initial_statistics()));
    }

    /// Whether `action` can be updated with `is_down` without a counter overflowing.
    pub fn can_update_statistics(&self, action: &String, is_down: bool) -> (r: bool)
        requires
            self.wf(),
        ensures
            r == self@.can_update(action@, is_down),
    {
        match self.find(action) {
            Some(i) => {
                let stats = self.statistics.value(i);
                self.frame_counter < u128::MAX && (stats.same_action_frame_count < u32::MAX
                    || stats.action_is_down != is_down)
            },
            None => false,
        }
    }

    /// Records one update of `action`: whether it is down on this update.
    pub fn update_statistics(&mut self, action: String, is_down: bool)
        requires
            old(self).wf(),
            old(self)@.can_update(action@, is_down),
        ensures
            final(self).wf(),
            final(self)@ == old(self)@.update(action@, is_down),
            old(self).keeps_readings_but(
                final(self),
                if is_down && !old(self)@.statistics[action@].action_is_down {
                    Some(action@)
                } else {
                    None
                },
                if !is_down && old(self)@.statistics[action@].action_is_down {
                    Some(action@)
                } else {
                    None
                },
            ),
    {
        let ghost old_self = *self;
        let i = match self.find(&action) {
            Some(i) => i,
            None => {
                return;
            },
        };
        self.frame_counter = self.frame_counter + 1;
        let mut stats = *self.statistics.value(i);
        stats.was_down = stats.action_is_down;
        if is_down {
            if !stats.action_is_down {
                stats.last_pressed = Instant::now();
                stats.same_action_frame_count = 0;
            }
            stats.same_action_frame_count = stats.same_action_frame_count + 1;
            stats.action_is_down = true;
        } else {
            if stats.action_is_down {
                stats.last_released = Instant::now();
                stats.same_action_frame_count = 0;
            }
            stats.action_is_down = false;
            stats.action_axis_value = 0;
            stats.same_action_frame_count = stats.same_action_frame_count + 1;
        }
        self.statistics.replace(i, stats);
        assert(self@.statistics =~= old_self@.update(action@, is_down).statistics);
        proof {
            self.lemma_readings_after_replace(old_self, action@);
        }
    }

    /// Stores an axis value (bit pattern of an `f32`) for `action` and returns
    /// whether it is far enough from zero to count as pressed.
    pub fn set_axis_value(&mut self, action: &String, axis_value: u32) -> (pressed: bool)
        requires
            old(self).wf(),
        ensures
            final(self).wf(),
            pressed == (old(self)@.statistics.contains_key(action@) && axis_is_pressed(axis_value)),
            final(self)@ == (if old(self)@.statistics.contains_key(action@) {
                InputManagerView {
                    frame_counter: old(self)@.frame_counter,
                    statistics: old(self)@.statistics.insert(
                        action@,
                        StatisticsView {
                            action_axis_value: axis_value,
                            action_is_down: axis_is_pressed(axis_value),
                            ..old(self)@.statistics[action@]
                        },
                    ),
                }
            } else {
                old(self)@
            }),
            old(self).keeps_readings_but(final(self), None, None),
    {
        let ghost old_self = *self;
        match self.find(action) {
            Some(i) => {
                let mut stats = *self.statistics.value(i);
                let pressed = stats.set_axis_value(axis_value);
                self.statistics.replace(i, stats);
                proof {
                    self.lemma_readings_after_replace(old_self, action@);
                }
                assert(self@.statistics =~= old_self@.statistics.insert(
                    action@,
                    StatisticsView {
                        action_axis_value: axis_value,
                        action_is_down: axis_is_pressed(axis_value),
                        ..old_self@.statistics[action@]
                    },
                ));
                pressed
            },
            None => false,
        }
    }

    /// The current status of `action`: whether it is pressed, without extra conditions.
    pub fn action_status(&self, action: String) -> (r: InputResult)
        requires
            self.wf(),
        ensures
            r == self@.status(action@),
    {
        match self.find(&action) {
            Some(i) => InputResult::new(self.statistics.value(i)),
            None => InputResult::default(),
        }
    }

    /// Returns `true` if the input was released this frame, on its latest update.
    pub fn action_just_released(&self, action: String) -> (r: bool)
        requires
            self.wf(),
        ensures
            r == self@.just_released(action@),
    {
        match self.find(&action) {
            Some(i) => {
                let stats = self.statistics.value(i);
                stats.was_down && !stats.action_is_down
            },
            None => false,
        }
    }

    /// The repeat-press query for a given time since the press began.
    pub fn repeat_press_after(
        &self,
        action: &String,
        elapsed_millis: u128,
        repeat_delay_millis: u128,
        repeat_every_x_frames: u128,
    ) -> (r: InputResult)
        requires
            self.wf(),
        ensures
            r == self@.repeat_press(action@, elapsed_millis, repeat_delay_millis, repeat_every_x_frames),
    {
        match self.find(action) {
            Some(i) => {
                let input = self.statistics.value(i);
                if input.action_is_down && (input.same_action_frame_count == 1 || (elapsed_millis
                    >= repeat_delay_millis && repeat_every_x_frames != 0 && self.frame_counter
                    % repeat_every_x_frames == 0)) {
                    InputResult::new(input)
                } else {
                    InputResult::default()
                }
            },
            None => InputResult::default(),
        }
    }

    /// Positive only on the first update of a press, and on every
    /// `repeat_every_x_frames`-th update once `repeat_delay_millis` passed since
    /// the press began: the time is read from the clock, measured from the
    /// reading taken when the action went down.
    pub fn is_valid_repeat_press(
        &self,
        action: String,
        repeat_delay_millis: u128,
        repeat_every_x_frames: u128,
    ) -> (r: InputResult)
        requires
            self.wf(),
        ensures
            exists|elapsed: u128|
                r == #[trigger] self@.repeat_press(
                    action@,
                    elapsed,
                    repeat_delay_millis,
                    repeat_every_x_frames,
                ) && (self@.statistics.contains_key(action@) ==> millis_since(
                    self.pressed_at(action@),
                    elapsed,
                )),
    {
        let elapsed = match self.find(&action) {
            Some(i) => millis_elapsed_since(&self.statistics.value(i).last_pressed),
            None => 0,
        };
        self.repeat_press_after(&action, elapsed, repeat_delay_millis, repeat_every_x_frames)
    }

    /// The cooldown query for a given time since the latest release.
    pub fn cooldown_press_after(&self, action: &String, elapsed_millis: u128, cooldown_millis: u128) -> (r: InputResult)
        requires
            self.wf(),
        ensures
            r == self@.cooldown_press(action@, elapsed_millis, cooldown_millis),
    {
        match self.find(action) {
            Some(i) => {
                let input = self.statistics.value(i);
                if input.action_is_down && elapsed_millis >= cooldown_millis {
                    InputResult::new(input)
                } else {
                    InputResult::default()
                }
            },
            None => InputResult::default(),
        }
    }

    /// Positive only while the input is down and at least `cooldown_millis`
    /// passed since its latest release: the time is read from the clock,
    /// measured from the reading taken when the action was released.
    pub fn is_valid_cooldown_press(&self, action: String, cooldown_millis: u128) -> (r: InputResult)
        requires
            self.wf(),
        ensures
            exists|elapsed: u128|
                r == #[trigger] self@.cooldown_press(action@, elapsed, cooldown_millis)
                    && (self@.statistics.contains_key(action@) ==> millis_since(
                    self.released_at(action@),
                    elapsed,
                )),
    {
        let elapsed = match self.find(&action) {
            Some(i) => millis_elapsed_since(&self.statistics.value(i).last_released),
            None => 0,
        };
        self.cooldown_press_after(&action, elapsed, cooldown_millis)
    }

    /// Positive only when the input gets pressed after having been released.
    pub fn action_single_press(&self, action: String) -> (r: InputResult)
        requires
            self.wf(),
        ensures
            r == self@.single_press(action@),
    {
        match self.find(&action) {
            Some(i) => {
                let input = self.statistics.value(i);
                if input.action_is_down && input.same_action_frame_count == 1 {
                    InputResult::new(input)
                } else {
                    InputResult::default()
                }
            },
            None => InputResult::default(),
        }
    }
}

/// The manager after each reading, in order, updated the action it names with
/// whether it is down (an action without a reading counts as released).
pub open spec fn record_action_readings(m: InputManagerView, readings: Seq<(String, Option<bool>)>) -> InputManagerView
    decreases readings.len(),
{
    if readings.len() == 0 {
        m
    } else {
        let r = readings.last();
        record_action_readings(m, readings.drop_last()).update(r.0@, r.1.unwrap_or(false))
    }
}

/// Whether no counter overflows while recording the action readings.
pub open spec fn can_record_action_readings(m: InputManagerView, readings: Seq<(String, Option<bool>)>) -> bool
    decreases readings.len(),
{
    if readings.len() == 0 {
        true
    } else {
        let r = readings.last();
        can_record_action_readings(m, readings.drop_last())
            && record_action_readings(m, readings.drop_last()).can_update(r.0@, r.1.unwrap_or(false))
    }
}

/// The manager after storing an axis value for `action`, when it is registered.
pub open spec fn with_axis_value(m: InputManagerView, action: Seq<char>, axis_value: u32) -> InputManagerView {
    if m.statistics.contains_key(action) {
        InputManagerView {
            frame_counter: m.frame_counter,
            statistics: m.statistics.insert(
                action,
                StatisticsView {
                    action_axis_value: axis_value,
                    action_is_down: axis_is_pressed(axis_value),
                    ..m.statistics[action]
                },
            ),
        }
    } else {
        m
    }
}

/// One axis reading: a present value is stored first, and the axis is down
/// when the value counts as pressed; an absent value counts as released.
pub open spec fn record_axis_reading(m: InputManagerView, action: Seq<char>, value: Option<u32>) -> InputManagerView {
    match value {
        Some(v) => with_axis_value(m, action, v).update(
            action,
            m.statistics.contains_key(action) && axis_is_pressed(v),
        ),
        None => m.update(action, false),
    }
}

/// Whether an axis reading can be recorded without a counter overflowing.
pub open spec fn can_record_axis_reading(m: InputManagerView, action: Seq<char>, value: Option<u32>) -> bool {
    match value {
        Some(v) => with_axis_value(m, action, v).can_update(
            action,
            m.statistics.contains_key(action) && axis_is_pressed(v),
        ),
        None => m.can_update(action, false),
    }
}

/// The manager after each axis reading, in order.
pub open spec fn record_axis_readings(m: InputManagerView, readings: Seq<(String, Option<u32>)>) -> InputManagerView
    decreases readings.len(),
{
    if readings.len() == 0 {
        m
    } else {
        let r = readings.last();
        record_axis_reading(record_axis_readings(m, readings.drop_last()), r.0@, r.1)
    }
}

/// Whether no counter overflows while recording the axis readings.
pub open spec fn can_record_axis_readings(m: InputManagerView, readings: Seq<(String, Option<u32>)>) -> bool
    decreases readings.len(),
{
    if readings.len() == 0 {
        true
    } else {
        let r = readings.last();
        can_record_axis_readings(m, readings.drop_last())
            && can_record_axis_reading(record_axis_readings(m, readings.drop_last()), r.0@, r.1)
    }
}

/// Whether one of the first `n` action readings names `action` and takes it
/// from released to down.
pub open spec fn action_readings_press(m: InputManagerView, readings: Seq<(String, Option<bool>)>, action: Seq<char>, n: int) -> bool {
    exists|i: int|
        0 <= i < n && #[trigger] readings[i].0@ == action && readings[i].1.unwrap_or(false)
            && !record_action_readings(m, readings.take(i)).statistics[action].action_is_down
}

/// Whether one of the first `n` action readings names `action` and takes it
/// from down to released.
pub open spec fn action_readings_release(m: InputManagerView, readings: Seq<(String, Option<bool>)>, action: Seq<char>, n: int) -> bool {
    exists|i: int|
        0 <= i < n && #[trigger] readings[i].0@ == action && !readings[i].1.unwrap_or(false)
            && record_action_readings(m, readings.take(i)).statistics[action].action_is_down
}

/// Whether one of the first `n` axis readings names `action`, has no value
/// and finds the axis down: the only readings that release an axis, as a
/// present value sets the axis's state before it is updated.
pub open spec fn axis_readings_release(m: InputManagerView, readings: Seq<(String, Option<u32>)>, action: Seq<char>, n: int) -> bool {
    exists|i: int|
        0 <= i < n && #[trigger] readings[i].0@ == action && readings[i].1 is None
            && record_axis_readings(m, readings.take(i)).statistics[action].action_is_down
}

impl InputManager {
    /// Records one reading per action: whether it is down, if known. Returns
    /// `false`, with the readings recorded only in part, when a reading names
    /// an unregistered action or would overflow a counter.
    pub fn record_action_readings(&mut self, readings: &Vec<(String, Option<bool>)>) -> (ok: bool)
        requires
            old(self).wf(),
        ensures
            final(self).wf(),
            ok == can_record_action_readings(old(self)@, readings@),
            ok ==> final(self)@ == record_action_readings(old(self)@, readings@),
            ok ==> forall|a: Seq<char>|
                old(self)@.statistics.contains_key(a) && !action_readings_press(
                    old(self)@,
                    readings@,
                    a,
                    readings.len() as int,
                ) ==> #[trigger] final(self).pressed_at(a) == old(self).pressed_at(a),
            ok ==> forall|a: Seq<char>|
                old(self)@.statistics.contains_key(a) && !action_readings_release(
                    old(self)@,
                    readings@,
                    a,
                    readings.len() as int,
                ) ==> #[trigger] final(self).released_at(a) == old(self).released_at(a),
    {
        let ghost m0 = self@;
        let ghost start = *self;
        let mut i: usize = 0;
        while i < readings.len()
            invariant
                self.wf(),
                i <= readings.len(),
                self@ == record_action_readings(m0, readings@.take(i as int)),
                can_record_action_readings(m0, readings@.take(i as int)),
                m0 == start@,
                m0 == old(self)@,
                self@.statistics.dom() == m0.statistics.dom(),
                forall|a: Seq<char>|
                    m0.statistics.contains_key(a) && !action_readings_press(m0, readings@, a, i as int)
                        ==> #[trigger] self.pressed_at(a) == start.pressed_at(a),
                forall|a: Seq<char>|
                    m0.statistics.contains_key(a) && !action_readings_release(m0, readings@, a, i as int)
                        ==> #[trigger] self.released_at(a) == start.released_at(a),
            decreases readings.len() - i,
        {
            let ghost before = *self;
            proof {
                assert(readings@.take(i + 1).drop_last() =~= readings@.take(i as int));
                assert(readings@.take(i + 1).last() == readings@[i as int]);
            }
            let name = readings[i].0.clone();
            let is_down = match readings[i].1 {
                Some(d) => d,
                None => false,
            };
            if !self.can_update_statistics(&name, is_down) {
                proof {
                    assert(!can_record_action_readings(m0, readings@.take(i + 1)));
                    if can_record_action_readings(m0, readings@) {
                        lemma_can_record_action_prefix(m0, readings@, i as int + 1);
                    }
                }
                return false;
            }
            self.update_statistics(name, is_down);
            proof {
                assert(self@.statistics.dom() =~= m0.statistics.dom());
                assert forall|a: Seq<char>|
                    m0.statistics.contains_key(a) && !action_readings_press(m0, readings@, a, i + 1) implies #[trigger] self.pressed_at(a)
                        == start.pressed_at(a) by {
                    if action_readings_press(m0, readings@, a, i as int) {
                        let j = choose|j: int|
                            0 <= j < i && #[trigger] readings@[j].0@ == a && readings@[j].1.unwrap_or(false)
                                && !record_action_readings(m0, readings@.take(j)).statistics[a].action_is_down;
                        assert(readings@[j].0@ == a);
                    }
                    if a == readings@[i as int].0@ && is_down && !before@.statistics[a].action_is_down {
                        assert(readings@[i as int].0@ == a);
                    }
                }
                assert forall|a: Seq<char>|
                    m0.statistics.contains_key(a) && !action_readings_release(m0, readings@, a, i + 1) implies #[trigger] self.released_at(a)
                        == start.released_at(a) by {
                    if action_readings_release(m0, readings@, a, i as int) {
                        let j = choose|j: int|
                            0 <= j < i && #[trigger] readings@[j].0@ == a && !readings@[j].1.unwrap_or(false)
                                && record_action_readings(m0, readings@.take(j)).statistics[a].action_is_down;
                        assert(readings@[j].0@ == a);
                    }
                    if a == readings@[i as int].0@ && !is_down && before@.statistics[a].action_is_down {
                        assert(readings@[i as int].0@ == a);
                    }
                }
            }
            i = i + 1;
        }
        assert(readings@.take(readings.len() as int) =~= readings@);
        true
    }

    /// Records one reading per axis: its value (bit pattern of an `f32`), if
    /// known. Returns `false`, with the readings recorded only in part, when a
    /// reading names an unregistered axis or would overflow a counter.
    pub fn record_axis_readings(&mut self, readings: &Vec<(String, Option<u32>)>) -> (ok: bool)
        requires
            old(self).wf(),
        ensures
            final(self).wf(),
            ok == can_record_axis_readings(old(self)@, readings@),
            ok ==> final(self)@ == record_axis_readings(old(self)@, readings@),
            ok ==> forall|a: Seq<char>|
                old(self)@.statistics.contains_key(a) ==> #[trigger] final(self).pressed_at(a) == old(
                    self,
                ).pressed_at(a),
            ok ==> forall|a: Seq<char>|
                old(self)@.statistics.contains_key(a) && !axis_readings_release(
                    old(self)@,
                    readings@,
                    a,
                    readings.len() as int,
                ) ==> #[trigger] final(self).released_at(a) == old(self).released_at(a),
    {
        let ghost m0 = self@;
        let ghost start = *self;
        let mut i: usize = 0;
        while i < readings.len()
            invariant
                self.wf(),
                i <= readings.len(),
                self@ == record_axis_readings(m0, readings@.take(i as int)),
                can_record_axis_readings(m0, readings@.take(i as int)),
                m0 == start@,
                m0 == old(self)@,
                self@.statistics.dom() == m0.statistics.dom(),
                forall|a: Seq<char>|
                    m0.statistics.contains_key(a) ==> #[trigger] self.pressed_at(a) == start.pressed_at(a),
                forall|a: Seq<char>|
                    m0.statistics.contains_key(a) && !axis_readings_release(m0, readings@, a, i as int)
                        ==> #[trigger] self.released_at(a) == start.released_at(a),
            decreases readings.len() - i,
        {
            let ghost before = *self;
            proof {
                assert(readings@.take(i + 1).drop_last() =~= readings@.take(i as int));
                assert(readings@.take(i + 1).last() == readings@[i as int]);
            }
            let name = readings[i].0.clone();
            let is_down = match readings[i].1 {
                Some(v) => self.set_axis_value(&name, v),
                None => false,
            };
            let ghost after_value = *self;
            if !self.can_update_statistics(&name, is_down) {
                proof {
                    assert(!can_record_axis_readings(m0, readings@.take(i + 1)));
                    if can_record_axis_readings(m0, readings@) {
                        lemma_can_record_axis_prefix(m0, readings@, i as int + 1);
                    }
                }
                return false;
            }
            self.update_statistics(name, is_down);
            proof {
                assert(self@.statistics.dom() =~= m0.statistics.dom());
                assert forall|a: Seq<char>|
                    m0.statistics.contains_key(a) && !axis_readings_release(m0, readings@, a, i + 1) implies #[trigger] self.released_at(a)
                        == start.released_at(a) by {
                    if axis_readings_release(m0, readings@, a, i as int) {
                        let j = choose|j: int|
                            0 <= j < i && #[trigger] readings@[j].0@ == a && readings@[j].1 is None
                                && record_axis_readings(m0, readings@.take(j)).statistics[a].action_is_down;
                        assert(readings@[j].0@ == a);
                    }
                    if a == readings@[i as int].0@ && !is_down && after_value@.statistics[a].action_is_down {
                        assert(readings@[i as int].0@ == a);
                    }
                }
            }
            i = i + 1;
        }
        assert(readings@.take(readings.len() as int) =~= readings@);
        true
    }
}

/// Fresh statistics for each name, a later repetition replacing an earlier one.
pub open spec fn fresh_statistics(names: Seq<String>) -> Map<Seq<char>, StatisticsView>
    decreases names.len(),
{
    if names.len() == 0 {
        Map::empty()
    } else {
        fresh_statistics(names.drop_last()).insert(names.last()@, initial_statistics())
    }
}

impl InputManager {
    /// A manager with each of `names` registered with fresh statistics.
    pub fn with_actions(names: &Vec<String>) -> (r: Self)
        ensures
            r.wf(),
            r@.frame_counter == 0,
            r@.statistics == fresh_statistics(names@),
    {
        let mut r = InputManager::new();
        let mut i: usize = 0;
        while i < names.len()
            invariant
                r.wf(),
                i <= names.len(),
                r@.frame_counter == 0,
                r@.statistics == fresh_statistics(names@.take(i as int)),
            decreases names.len() - i,
        {
            proof {
                assert(names@.take(i + 1).drop_last() =~= names@.take(i as int));
            }
            r.insert_action(names[i].clone());
            i = i + 1;
        }
        assert(names@.take(names.len() as int) =~= names@);
        r
    }
}

/// Resource to query input state: one manager for actions, one for axes.
pub struct Input {
    pub actions: InputManager,
    pub axes: InputManager,
}

impl Input {
    /// Both managers are well formed.
    pub open spec fn wf(&self) -> bool {
        self.actions.wf() && self.axes.wf()
    }

    /// Registers every bound action and axis with fresh statistics.
    pub fn new(action_names: &Vec<String>, axis_names: &Vec<String>) -> (r: Self)
        ensures
            r.wf(),
            r.actions@.frame_counter == 0,
            r.axes@.frame_counter == 0,
            r.actions@.statistics == fresh_statistics(action_names@),
            r.axes@.statistics == fresh_statistics(axis_names@),
    {
        Input { actions: InputManager::with_actions(action_names), axes: InputManager::with_actions(axis_names) }
    }

    /// Updates the statistics at the start of a frame: every action with
    /// whether it is down, then every axis with its value. Returns `false`,
    /// with the frame recorded only in part, when a reading names an
    /// unregistered input or would overflow a counter.
    pub fn record_frame(
        &mut self,
        action_readings: &Vec<(String, Option<bool>)>,
        axis_readings: &Vec<(String, Option<u32>)>,
    ) -> (ok: bool)
        requires
            old(self).wf(),
        ensures
            final(self).wf(),
            ok == (can_record_action_readings(old(self).actions@, action_readings@)
                && can_record_axis_readings(old(self).axes@, axis_readings@)),
            ok ==> final(self).actions@ == record_action_readings(old(self).actions@, action_readings@),
            ok ==> final(self).axes@ == record_axis_readings(old(self).axes@, axis_readings@),
            ok ==> forall|a: Seq<char>|
                old(self).actions@.statistics.contains_key(a) && !action_readings_press(
                    old(self).actions@,
                    action_readings@,
                    a,
                    action_readings.len() as int,
                ) ==> #[trigger] final(self).actions.pressed_at(a) == old(self).actions.pressed_at(a),
            ok ==> forall|a: Seq<char>|
                old(self).actions@.statistics.contains_key(a) && !action_readings_release(
                    old(self).actions@,
                    action_readings@,
                    a,
                    action_readings.len() as int,
                ) ==> #[trigger] final(self).actions.released_at(a) == old(self).actions.released_at(a),
            ok ==> forall|a: Seq<char>|
                old(self).axes@.statistics.contains_key(a) ==> #[trigger] final(self).axes.pressed_at(a)
                    == old(self).axes.pressed_at(a),
            ok ==> forall|a: Seq<char>|
                old(self).axes@.statistics.contains_key(a) && !axis_readings_release(
                    old(self).axes@,
                    axis_readings@,
                    a,
                    axis_readings.len() as int,
                ) ==> #[trigger] final(self).axes.released_at(a) == old(self).axes.released_at(a),
    {
        if !self.actions.record_action_readings(action_readings) {
            return false;
        }
        self.axes.record_axis_readings(axis_readings)
    }
}

proof fn lemma_can_record_action_prefix(m: InputManagerView, readings: Seq<(String, Option<bool>)>, n: int)
    requires
        0 <= n <= readings.len(),
        can_record_action_readings(m, readings),
    ensures
        can_record_action_readings(m, readings.take(n)),
    decreases readings.len(),
{
    if n < readings.len() {
        assert(readings.drop_last().take(n) =~= readings.take(n));
        lemma_can_record_action_prefix(m, readings.drop_last(), n);
    } else {
        assert(readings.take(n) =~= readings);
    }
}

proof fn lemma_can_record_axis_prefix(m: InputManagerView, readings: Seq<(String, Option<u32>)>, n: int)
    requires
        0 <= n <= readings.len(),
        can_record_axis_readings(m, readings),
    ensures
        can_record_axis_readings(m, readings.take(n)),
    decreases readings.len(),
{
    if n < readings.len() {
        assert(readings.drop_last().take(n) =~= readings.take(n));
        lemma_can_record_axis_prefix(m, readings.drop_last(), n);
    } else {
        assert(readings.take(n) =~= readings);
    }
}

/// After an update, the status of the action is what the update said, and a
/// released action has a zero axis value.
pub proof fn lemma_status_follows_update(m: InputManagerView, action: Seq<char>, is_down: bool)
    requires
        m.statistics.contains_key(action),
    ensures
        m.update(action, is_down).status(action).is_down == is_down,
        !is_down ==> m.update(action, is_down).status(action).axis == 0,
        is_down ==> m.update(action, is_down).status(action).axis == m.status(action).axis,
{
}

/// Updating one action changes nothing that the queries read of another.
pub proof fn lemma_update_leaves_others(m: InputManagerView, action: Seq<char>, other: Seq<char>, is_down: bool)
    requires
        action != other,
    ensures
        m.update(action, is_down).statistics.contains_key(other) == m.statistics.contains_key(other),
        m.update(action, is_down).statistics[other] == m.statistics[other],
        m.update(action, is_down).status(other) == m.status(other),
        m.update(action, is_down).just_released(other) == m.just_released(other),
{
}

/// An action reads as just released exactly after the update that releases it.
pub proof fn lemma_just_released_exactly_on_release(m: InputManagerView, action: Seq<char>, is_down: bool)
    requires
        m.statistics.contains_key(action),
    ensures
        m.update(action, is_down).just_released(action) == (!is_down && m.statistics[action].action_is_down),
{
}

/// The single-press query is positive exactly after the update on which the
/// action goes down having been released, and never while it is held.
pub proof fn lemma_single_press_exactly_when_press_begins(m: InputManagerView, action: Seq<char>, is_down: bool)
    requires
        m.statistics.contains_key(action),
        m.statistics[action].action_is_down ==> 1 <= m.statistics[action].same_action_frame_count < u32::MAX,
    ensures
        m.update(action, is_down).single_press(action).is_down == (is_down && !m.statistics[action].action_is_down),
        m.update(action, is_down).single_press(action).is_down ==> m.update(action, is_down).single_press(action)
            == InputResult::of(m.update(action, is_down).statistics[action]),
{
}

/// The update on which a press begins is positive for the repeat query,
/// whatever the time, delay and period.
pub proof fn lemma_press_begins_positive(
    m: InputManagerView,
    action: Seq<char>,
    elapsed: u128,
    repeat_delay_millis: u128,
    repeat_every_x_frames: u128,
)
    requires
        m.statistics.contains_key(action),
        !m.statistics[action].action_is_down,
    ensures
        m.update(action, true).repeat_press(action, elapsed, repeat_delay_millis, repeat_every_x_frames)
            == InputResult::of(m.update(action, true).statistics[action]),
        m.update(action, true).repeat_press(action, elapsed, repeat_delay_millis, repeat_every_x_frames).is_down,
{
}

/// While an action is held past its first update, the repeat query is positive
/// exactly when the delay has passed and the update number is a multiple of the period.
pub proof fn lemma_held_press_repeats_on_period(
    m: InputManagerView,
    action: Seq<char>,
    elapsed: u128,
    repeat_delay_millis: u128,
    repeat_every_x_frames: u128,
)
    requires
        m.statistics.contains_key(action),
        m.statistics[action].action_is_down,
        1 <= m.statistics[action].same_action_frame_count < u32::MAX,
    ensures
        m.update(action, true).repeat_press(action, elapsed, repeat_delay_millis, repeat_every_x_frames).is_down
            == (elapsed >= repeat_delay_millis && repeat_every_x_frames != 0
            && m.update(action, true).frame_counter % repeat_every_x_frames == 0),
{
}

/// A released action is never positive for the repeat or the cooldown query.
pub proof fn lemma_released_never_positive(
    m: InputManagerView,
    action: Seq<char>,
    elapsed: u128,
    delay: u128,
    period: u128,
)
    ensures
        !m.status(action).is_down ==> m.repeat_press(action, elapsed, delay, period) == InputResult::none(),
        !m.status(action).is_down ==> m.cooldown_press(action, elapsed, delay) == InputResult::none(),
{
}

/// The cooldown query is positive exactly while the action is down and the
/// cooldown has passed since the latest release.
pub proof fn lemma_cooldown_press(m: InputManagerView, action: Seq<char>, elapsed: u128, cooldown_millis: u128)
    ensures
        m.cooldown_press(action, elapsed, cooldown_millis).is_down
            == (m.status(action).is_down && elapsed >= cooldown_millis),
{
}

} // verus!
