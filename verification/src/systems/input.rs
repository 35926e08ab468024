//! The game's input bookkeeping: which bound actions and axes are down, for how
//! many frames, and the repeat and cooldown queries made on them.
use std::time::Instant;
use vstd::prelude::*;

use crate::clock::{millis_elapsed_since, millis_since};
use crate::input::MAGNITUDE_MASK;
use crate::registry::Registry;

verus! {

/// Delay before a held input starts repeating, in milliseconds.
pub const REPEAT_DELAY: u128 = 250;

/// Cooldown between two presses, in milliseconds.
pub const COOLDOWN_DELAY: u128 = 250;

/// Delay and period, in milliseconds and frames, that make a repeat press a single press.
pub const SINGLE_PRESS_PERIOD: u128 = 5000;

/// An axis value, given as the bit pattern of an `f32`, makes its input down
/// when it is not zero (of either sign).
pub open spec fn axis_is_nonzero(axis_bits: u32) -> bool {
    axis_bits & MAGNITUDE_MASK != 0
}

/// What the queries read of an input's statistics.
#[derive(Clone, Copy, Debug, PartialEq, Eq, Structural)]
pub struct StatisticsView {
    pub action_is_down: bool,
    pub action_down_frame_count: u32,
    pub action_axis_value: u32,
}

/// The statistics of an input that never was down.
pub open spec fn initial_statistics() -> StatisticsView {
    StatisticsView { action_is_down: false, action_down_frame_count: 0, action_axis_value: 0 }
}

#[derive(Clone, Copy)]
struct InputStatistics {
    /// Set when the input is released.
    time_since_last_press_millis: Instant,
    /// Set when the input goes down.
    press_length_millis: Instant,
    action_is_down: bool,
    action_down_frame_count: u32,
    /// Bit pattern of the latest `f32` axis value.
    action_axis_value: u32,
}

impl View for InputStatistics {
    type V = StatisticsView;

    closed spec fn view(&self) -> StatisticsView {
        StatisticsView {
            action_is_down: self.action_is_down,
            action_down_frame_count: self.action_down_frame_count,
            action_axis_value: self.action_axis_value,
        }
    }
}

impl InputStatistics {
    fn fresh() -> (r: Self)
        ensures
            r@ == initial_statistics(),
    {
        InputStatistics {
            time_since_last_press_millis: Instant::now(),
            press_length_millis: Instant::now(),
            action_is_down: false,
            action_down_frame_count: 0,
            action_axis_value: 0,
        }
    }
}

/// What the queries read of an `InputManager`.
pub struct InputManagerView {
    pub frame_counter: u128,
    pub statistics: Map<Seq<char>, StatisticsView>,
}

/// One reading of an input at the start of a frame: its name, its axis value
/// (bit pattern of an `f32`) if it is an axis, and whether it is down if it is
/// an action.
pub type InputReading = (String, Option<u32>, Option<bool>);

/// The statistics of an input after one frame's reading.
pub open spec fn read_statistics(s: StatisticsView, axis: Option<u32>, down: Option<bool>) -> StatisticsView {
    let s1 = match axis {
        Some(v) => StatisticsView { action_axis_value: v, ..s },
        None => s,
    };
    let is_down = match axis {
        Some(v) => axis_is_nonzero(v),
        None => down.unwrap_or(false),
    };
    if is_down {
        StatisticsView {
            action_is_down: true,
            action_down_frame_count: (s1.action_down_frame_count + 1) as u32,
            ..s1
        }
    } else {
        StatisticsView { action_is_down: false, action_down_frame_count: 0, ..s1 }
    }
}

/// Whether an input can take a reading without its frame count overflowing.
pub open spec fn can_read(s: StatisticsView, axis: Option<u32>, down: Option<bool>) -> bool {
    let is_down = match axis {
        Some(v) => axis_is_nonzero(v),
        None => down.unwrap_or(false),
    };
    is_down ==> s.action_down_frame_count < u32::MAX
}

/// The statistics after each reading, in order.
pub open spec fn read_all(m: Map<Seq<char>, StatisticsView>, readings: Seq<InputReading>) -> Map<Seq<char>, StatisticsView>
    decreases readings.len(),
{
    if readings.len() == 0 {
        m
    } else {
        let r = readings.last();
        let prev = read_all(m, readings.drop_last());
        prev.insert(r.0@, read_statistics(prev[r.0@], r.1, r.2))
    }
}

/// Whether every reading names a registered input that can take it.
pub open spec fn can_read_all(m: Map<Seq<char>, StatisticsView>, readings: Seq<InputReading>) -> bool
    decreases readings.len(),
{
    if readings.len() == 0 {
        true
    } else {
        let r = readings.last();
        let prev = read_all(m, readings.drop_last());
        can_read_all(m, readings.drop_last()) && prev.contains_key(r.0@) && can_read(prev[r.0@], r.1, r.2)
    }
}

/// Whether one of the first `n` readings names `action` and takes it from
/// released to down.
pub open spec fn readings_press(m: Map<Seq<char>, StatisticsView>, readings: Seq<InputReading>, action: Seq<char>, n: int) -> bool {
    exists|i: int|
        0 <= i < n && #[trigger] readings[i].0@ == action && !read_all(m, readings.take(i))[action].action_is_down
            && read_statistics(read_all(m, readings.take(i))[action], readings[i].1, readings[i].2).action_is_down
}

/// Whether one of the first `n` readings names `action` and takes it from
/// down to released.
pub open spec fn readings_release(m: Map<Seq<char>, StatisticsView>, readings: Seq<InputReading>, action: Seq<char>, n: int) -> bool {
    exists|i: int|
        0 <= i < n && #[trigger] readings[i].0@ == action && read_all(m, readings.take(i))[action].action_is_down
            && !read_statistics(read_all(m, readings.take(i))[action], readings[i].1, readings[i].2).action_is_down
}

/// Fresh statistics for each name.
pub open spec fn fresh_statistics(names: Seq<String>) -> Map<Seq<char>, StatisticsView>
    decreases names.len(),
{
    if names.len() == 0 {
        Map::empty()
    } else {
        fresh_statistics(names.drop_last()).insert(names.last()@, initial_statistics())
    }
}

impl InputManagerView {
    /// Positive while down, on the first frame of a press, and after the delay
    /// on every frame whose number is a multiple of the period (a zero period never repeats).
    pub open spec fn repeat_press(self, action: Seq<char>, elapsed: u128, repeat_delay: u128, repeat_every_x_frames: u128) -> bool {
        &&& self.statistics.contains_key(action)
        &&& self.statistics[action].action_is_down
        &&& (self.statistics[action].action_down_frame_count == 1 || (elapsed >= repeat_delay
            && repeat_every_x_frames != 0 && self.frame_counter % repeat_every_x_frames == 0))
    }

    /// Positive while down once the press has lasted the cooldown.
    pub open spec fn cooldown_press(self, action: Seq<char>, elapsed: u128, cooldown_millis: u128) -> bool {
        &&& self.statistics.contains_key(action)
        &&& self.statistics[action].action_is_down
        &&& elapsed >= cooldown_millis
    }

    pub open spec fn is_down(self, action: Seq<char>) -> bool {
        self.statistics.contains_key(action) && self.statistics[action].action_is_down
    }

    pub open spec fn axis(self, action: Seq<char>) -> u32 {
        if self.statistics.contains_key(action) {
            self.statistics[action].action_axis_value
        } else {
            0
        }
    }
}

/// Tracks the state of every bound input of the game.
pub struct InputManager {
    statistics: Registry<InputStatistics>,
    pub frame_counter: u128,
}

impl View for InputManager {
    type V = InputManagerView;

    closed spec fn view(&self) -> InputManagerView {
        InputManagerView {
            frame_counter: self.frame_counter,
            statistics: self.statistics.map().map_values(|s: InputStatistics| s@),
        }
    }
}

impl InputManager {
    pub closed spec fn wf(&self) -> bool {
        self.statistics.wf()
    }

    /// The clock reading taken when `action` last went down.
    pub closed spec fn pressed_at(&self, action: Seq<char>) -> Instant {
        self.statistics.map()[action].press_length_millis
    }

    /// The clock reading taken when `action` was last released.
    pub closed spec fn released_at(&self, action: Seq<char>) -> Instant {
        self.statistics.map()[action].time_since_last_press_millis
    }

    fn find(&self, action: &str) -> (r: Option<usize>)
        requires
            self.wf(),
        ensures
            match r {
                Some(i) => i < self.statistics.len() && self.statistics.key_at(i as int) == action@
                    && self@.statistics.contains_key(action@)
                    && self.statistics.map()[action@] == self.statistics.value_at(i as int)
                    && self@.statistics[action@] == self.statistics.value_at(i as int)@,
                None => !self@.statistics.contains_key(action@),
            },
    {
        let key = action.to_owned();
        self.statistics.find(&key)
    }

    /// Registers each bound action and axis name with fresh statistics.
    pub fn new(names: &Vec<String>) -> (r: Self)
        ensures
            r.wf(),
            r@.frame_counter == 0,
            r@.statistics == fresh_statistics(names@),
    {
        let mut r = InputManager { statistics: Registry::new(), frame_counter: 0 };
        assert(r@.statistics =~= fresh_statistics(names@.take(0)));
        let mut i: usize = 0;
        while i < names.len()
            invariant
                r.wf(),
                i <= names.len(),
                r@.frame_counter == 0,
                r@.statistics == fresh_statistics(names@.take(i as int)),
            decreases names.len() - i,
        {
            proof {
                assert(names@.take(i + 1).drop_last() =~= names@.take(i as int));
            }
            let ghost before = r@;
            r.statistics.insert(names[i].clone(), InputStatistics::fresh());
            assert(r@.statistics =~= before.statistics.insert(names@[i as int]@, initial_statistics()));
            i = i + 1;
        }
        assert(names@.take(names.len() as int) =~= names@);
        r
    }

    /// The repeat query for a given time since the press began.
    pub fn repeat_press_after(&self, action: &str, elapsed: u128, repeat_delay: u128, repeat_every_x_frames: u128) -> (r: bool)
        requires
            self.wf(),
        ensures
            r == self@.repeat_press(action@, elapsed, repeat_delay, repeat_every_x_frames),
    {
        match self.find(action) {
            Some(i) => {
                let input = self.statistics.value(i);
                if !input.action_is_down {
                    return false;
                }
                input.action_down_frame_count == 1 || (elapsed >= repeat_delay
                    && repeat_every_x_frames != 0 && self.frame_counter % repeat_every_x_frames
                    == 0)
            },
            None => false,
        }
    }

    /// Positive on the first frame of a press, and on every
    /// `repeat_every_x_frames`-th frame once `repeat_delay` milliseconds passed
    /// since the press began: the time is read from the clock, measured from
    /// the reading taken when the input went down.
    pub fn is_valid_repeat_press(&self, action: &str, repeat_delay: u128, repeat_every_x_frames: u128) -> (r: bool)
        requires
            self.wf(),
        ensures
            exists|elapsed: u128|
                r == #[trigger] self@.repeat_press(action@, elapsed, repeat_delay, repeat_every_x_frames)
                    && (self@.statistics.contains_key(action@) ==> millis_since(self.pressed_at(action@), elapsed)),
    {
        let elapsed = match self.find(action) {
            Some(i) => millis_elapsed_since(&self.statistics.value(i).press_length_millis),
            None => 0,
        };
        self.repeat_press_after(action, elapsed, repeat_delay, repeat_every_x_frames)
    }

    /// The axis value (bit pattern of an `f32`) on frames the repeat query is
    /// positive, `0.0` on the others; the time is measured as for `is_valid_repeat_press`.
    pub fn axis_repeat_press(&self, action: &str, repeat_delay: u128, repeat_every_x_frames: u128) -> (r: u32)
        requires
            self.wf(),
        ensures
            exists|elapsed: u128|
                r == (if #[trigger] self@.repeat_press(action@, elapsed, repeat_delay, repeat_every_x_frames) {
                    self@.axis(action@)
                } else {
                    0
                }) && (self@.statistics.contains_key(action@) ==> millis_since(self.pressed_at(action@), elapsed)),
    {
        let elapsed = match self.find(action) {
            Some(i) => millis_elapsed_since(&self.statistics.value(i).press_length_millis),
            None => 0,
        };
        if self.repeat_press_after(action, elapsed, repeat_delay, repeat_every_x_frames) {
            self.axis_value(action)
        } else {
            0
        }
    }

    /// The cooldown query for a given duration of the current press.
    pub fn cooldown_press_after(&self, action: &str, elapsed: u128, cooldown_millis: u128) -> (r: bool)
        requires
            self.wf(),
        ensures
            r == self@.cooldown_press(action@, elapsed, cooldown_millis),
    {
        match self.find(action) {
            Some(i) => {
                let input = self.statistics.value(i);
                if !input.action_is_down {
                    return false;
                }
                elapsed >= cooldown_millis
            },
            None => false,
        }
    }

    /// Positive while down once the press has lasted `cooldown_millis`: the
    /// time is read from the clock, measured from the reading taken when the
    /// input went down.
    pub fn is_valid_cooldown_press(&self, action: &str, cooldown_millis: u128) -> (r: bool)
        requires
            self.wf(),
        ensures
            exists|elapsed: u128|
                r == #[trigger] self@.cooldown_press(action@, elapsed, cooldown_millis)
                    && (self@.statistics.contains_key(action@) ==> millis_since(self.pressed_at(action@), elapsed)),
    {
        let elapsed = match self.find(action) {
            Some(i) => millis_elapsed_since(&self.statistics.value(i).press_length_millis),
            None => 0,
        };
        self.cooldown_press_after(action, elapsed, cooldown_millis)
    }

    /// The repeat query with `SINGLE_PRESS_PERIOD` as delay and period: positive
    /// on the frame a press begins, and, on a press held that many milliseconds,
    /// on frames whose number is a multiple of it.
    pub fn is_action_single_press(&self, action: &str) -> (r: bool)
        requires
            self.wf(),
        ensures
            exists|elapsed: u128|
                r == #[trigger] self@.repeat_press(action@, elapsed, SINGLE_PRESS_PERIOD, SINGLE_PRESS_PERIOD)
                    && (self@.statistics.contains_key(action@) ==> millis_since(self.pressed_at(action@), elapsed)),
    {
        self.is_valid_repeat_press(action, SINGLE_PRESS_PERIOD, SINGLE_PRESS_PERIOD)
    }

    /// Whether the input is down.
    pub fn is_action_down(&self, action: &str) -> (r: bool)
        requires
            self.wf(),
        ensures
            r == self@.is_down(action@),
    {
        match self.find(action) {
            Some(i) => self.statistics.value(i).action_is_down,
            None => false,
        }
    }

    /// The latest axis value (bit pattern of an `f32`), `0.0` for an unknown input.
    pub fn axis_value(&self, action: &str) -> (r: u32)
        requires
            self.wf(),
        ensures
            r == self@.axis(action@),
    {
        match self.find(action) {
            Some(i) => self.statistics.value(i).action_axis_value,
            None => 0,
        }
    }

    /// Starts a frame and records each input's reading: an axis is down when
    /// its value is not zero, an action when it says so. Returns `false`, with
    /// the frame recorded only in part, when a reading names an unregistered
    /// input or a counter would overflow.
    pub fn record_frame(&mut self, readings: &Vec<InputReading>) -> (ok: bool)
        requires
            old(self).wf(),
        ensures
            final(self).wf(),
            ok == (old(self)@.frame_counter < u128::MAX && can_read_all(old(self)@.statistics, readings@)),
            ok ==> final(self)@.frame_counter == old(self)@.frame_counter + 1,
            ok ==> final(self)@.statistics == read_all(old(self)@.statistics, readings@),
            ok ==> forall|a: Seq<char>|
                old(self)@.statistics.contains_key(a) && !readings_press(
                    old(self)@.statistics,
                    readings@,
                    a,
                    readings.len() as int,
                ) ==> #[trigger] final(self).pressed_at(a) == old(self).pressed_at(a),
            ok ==> forall|a: Seq<char>|
                old(self)@.statistics.contains_key(a) && !readings_release(
                    old(self)@.statistics,
                    readings@,
                    a,
                    readings.len() as int,
                ) ==> #[trigger] final(self).released_at(a) == old(self).released_at(a),
    {
        let ghost start = *self;
        if self.frame_counter == u128::MAX {
            return false;
        }
        self.frame_counter = self.frame_counter + 1;
        let ghost m0 = self@.statistics;
        let mut i: usize = 0;
        while i < readings.len()
            invariant
                self.wf(),
                i <= readings.len(),
                self@.frame_counter == old(self)@.frame_counter + 1,
                self@.statistics == read_all(m0, readings@.take(i as int)),
                can_read_all(m0, readings@.take(i as int)),
                m0 == start@.statistics,
                m0 == old(self)@.statistics,
                old(self)@.frame_counter < u128::MAX,
                self@.statistics.dom() == m0.dom(),
                forall|a: Seq<char>|
                    m0.contains_key(a) && !readings_press(m0, readings@, a, i as int) ==> #[trigger] self.pressed_at(a)
                        == start.pressed_at(a),
                forall|a: Seq<char>|
                    m0.contains_key(a) && !readings_release(m0, readings@, a, i as int) ==> #[trigger] self.released_at(a)
                        == start.released_at(a),
            decreases readings.len() - i,
        {
            proof {
                assert(readings@.take(i + 1).drop_last() =~= readings@.take(i as int));
                assert(readings@.take(i + 1).last() == readings@[i as int]);
            }
            let ghost before = self@;
            let ghost before_manager = *self;
            let idx = match self.find(readings[i].0.as_str()) {
                Some(idx) => idx,
                None => {
                    proof {
                        assert(!can_read_all(m0, readings@.take(i + 1)));
                        if can_read_all(m0, readings@) {
                            lemma_can_read_prefix(m0, readings@, i as int + 1);
                        }
                    }
                    return false;
                },
            };
            let mut stats = *self.statistics.value(idx);
            let ghost old_stats = stats;
            let mut action_is_down = false;
            match readings[i].1 {
                Some(value) => {
                    stats.action_axis_value = value;
                    if value & MAGNITUDE_MASK != 0 {
                        action_is_down = true;
                    }
                },
                None => {
                    if let Some(is_down) = readings[i].2 {
                        action_is_down = is_down;
                    }
                },
            }
            if action_is_down && stats.action_down_frame_count == u32::MAX {
                proof {
                    assert(!can_read_all(m0, readings@.take(i + 1)));
                    if can_read_all(m0, readings@) {
                        lemma_can_read_prefix(m0, readings@, i as int + 1);
                    }
                }
                return false;
            }
            if action_is_down {
                if !stats.action_is_down {
                    stats.press_length_millis = Instant::now();
                }
                stats.action_is_down = true;
                stats.action_down_frame_count = stats.action_down_frame_count + 1;
            } else {
                if stats.action_is_down {
                    stats.time_since_last_press_millis = Instant::now();
                }
                stats.action_is_down = false;
                stats.action_down_frame_count = 0;
            }
            self.statistics.replace(idx, stats);
            assert(self@.statistics =~= before.statistics.insert(
                readings@[i as int].0@,
                read_statistics(before.statistics[readings@[i as int].0@], readings@[i as int].1, readings@[i as int].2),
            ));
            proof {
                let name = readings@[i as int].0@;
                assert(self@.statistics.dom() =~= m0.dom());
                assert forall|a: Seq<char>|
                    m0.contains_key(a) && !readings_press(m0, readings@, a, i + 1) implies #[trigger] self.pressed_at(a)
                        == start.pressed_at(a) by {
                    if readings_press(m0, readings@, a, i as int) {
                        let j = choose|j: int|
                            0 <= j < i && #[trigger] readings@[j].0@ == a && !read_all(m0, readings@.take(j))[a].action_is_down
                                && read_statistics(read_all(m0, readings@.take(j))[a], readings@[j].1, readings@[j].2).action_is_down;
                        assert(readings@[j].0@ == a);
                    }
                    if a == name {
                        assert(readings@[i as int].0@ == a);
                        assert(self.statistics.map()[a] == stats);
                        assert(before_manager.statistics.map()[a] == old_stats);
                        assert(old_stats@ == before.statistics[a]);
                        assert(stats.action_is_down == action_is_down);
                        if action_is_down && !old_stats.action_is_down {
                            assert(readings_press(m0, readings@, a, i + 1));
                        } else {
                            assert(stats.press_length_millis == old_stats.press_length_millis);
                        }
                    } else {
                        assert(self.statistics.map()[a] == before_manager.statistics.map()[a]);
                    }
                    assert(before_manager.pressed_at(a) == start.pressed_at(a));
                }
                assert forall|a: Seq<char>|
                    m0.contains_key(a) && !readings_release(m0, readings@, a, i + 1) implies #[trigger] self.released_at(a)
                        == start.released_at(a) by {
                    if readings_release(m0, readings@, a, i as int) {
                        let j = choose|j: int|
                            0 <= j < i && #[trigger] readings@[j].0@ == a && read_all(m0, readings@.take(j))[a].action_is_down
                                && !read_statistics(read_all(m0, readings@.take(j))[a], readings@[j].1, readings@[j].2).action_is_down;
                        assert(readings@[j].0@ == a);
                    }
                    if a == name {
                        assert(readings@[i as int].0@ == a);
                        assert(self.statistics.map()[a] == stats);
                        assert(before_manager.statistics.map()[a] == old_stats);
                        assert(old_stats@ == before.statistics[a]);
                        assert(stats.action_is_down == action_is_down);
                        if !action_is_down && old_stats.action_is_down {
                            assert(readings_release(m0, readings@, a, i + 1));
                        } else {
                            assert(stats.time_since_last_press_millis == old_stats.time_since_last_press_millis);
                        }
                    } else {
                        assert(self.statistics.map()[a] == before_manager.statistics.map()[a]);
                    }
                    assert(before_manager.released_at(a) == start.released_at(a));
                }
            }
            i = i + 1;
        }
        assert(readings@.take(readings.len() as int) =~= readings@);
        true
    }
}

proof fn lemma_can_read_prefix(m: Map<Seq<char>, StatisticsView>, readings: Seq<InputReading>, n: int)
    requires
        0 <= n <= readings.len(),
        can_read_all(m, readings),
    ensures
        can_read_all(m, readings.take(n)),
    decreases readings.len(),
{
    if n < readings.len() {
        assert(readings.drop_last().take(n) =~= readings.take(n));
        lemma_can_read_prefix(m, readings.drop_last(), n);
    } else {
        assert(readings.take(n) =~= readings);
    }
}

/// A reading makes an input down exactly when its axis value is not zero, or,
/// with no axis value, when it says the action is down; a released input has a
/// zero frame count, and the frame a press begins has a count of one.
pub proof fn lemma_reading(s: StatisticsView, axis: Option<u32>, down: Option<bool>)
    requires
        can_read(s, axis, down),
    ensures
        read_statistics(s, axis, down).action_is_down == match axis {
            Some(v) => axis_is_nonzero(v),
            None => down.unwrap_or(false),
        },
        !read_statistics(s, axis, down).action_is_down ==> read_statistics(s, axis, down).action_down_frame_count == 0,
        read_statistics(s, axis, down).action_is_down && !s.action_is_down && s.action_down_frame_count == 0
            ==> read_statistics(s, axis, down).action_down_frame_count == 1,
        read_statistics(s, axis, down).action_axis_value == match axis {
            Some(v) => v,
            None => s.action_axis_value,
        },
{
}

/// On the first frame of a press the repeat query is positive whatever the
/// time, delay and period; while released it is negative.
pub proof fn lemma_repeat_press_on_first_frame(m: InputManagerView, action: Seq<char>, elapsed: u128, delay: u128, period: u128)
    ensures
        m.is_down(action) && m.statistics[action].action_down_frame_count == 1 ==> m.repeat_press(action, elapsed, delay, period),
        !m.is_down(action) ==> !m.repeat_press(action, elapsed, delay, period),
        !m.is_down(action) ==> !m.cooldown_press(action, elapsed, delay),
{
}

} // verus!
