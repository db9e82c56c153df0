//! Tick counters that drive the interface's animations.
//!
//! A ticker counts from zero up to its length, or back down when reversed,
//! one step each time its deadline has passed. Time is a count of
//! milliseconds that the caller reads off a monotonic clock.

use crate::action::Action;
use std::ops::Range;
use vstd::prelude::*;

verus! {

/// Whether a ticker is counting, and if so when its next step is due.
#[derive(Clone, Copy, Debug, PartialEq, Eq, Structural)]
pub enum AnimationState {
    Stop,
    Running { next_tick: u64 },
}

/// Milliseconds added to every tick while debugging, to slow animations down.
pub const DEBUG_DELAY_MS: u64 = 50;

/// First tick of the stretch over which the blink flag flickers.
pub const BLINK_FROM: usize = 60;

/// First tick after that stretch.
pub const BLINK_UNTIL: usize = 100;

/// An animation's clockwork.
#[derive(Clone, Copy, Debug, PartialEq, Eq, Structural)]
pub struct AnimationTicker {
    /// Whether ticks are slowed down for debugging.
    pub is_debugging: bool,
    /// Number of ticks in the animation.
    pub len: usize,
    /// Whether the ticker counts down.
    pub reverse: bool,
    pub state: AnimationState,
    /// The current tick.
    pub tick: usize,
    /// Milliseconds from one step to the next.
    pub tick_duration: u64,
    /// Whether blinking parts are shown at this tick.
    pub render_blink: bool,
}

/// The tick clamped into `start..=end` and counted from `start`.
pub open spec fn tick_within(tick: usize, start: usize, end: usize) -> usize {
    let low = if tick < end {
        tick
    } else {
        end
    };
    let clamped = if low > start {
        low
    } else {
        start
    };
    (clamped - start) as usize
}

/// The blink flag at `tick`, for ticks on the flicker stretch: the square of
/// the distance into the stretch, in steps of 300, is odd.
pub open spec fn blink_at(tick: usize) -> bool {
    let t = tick_within(tick, BLINK_FROM, BLINK_UNTIL) as int;
    ((t * t) / 300) % 2 == 1
}

impl AnimationTicker {
    /// The deadline has passed: the ticker is running and `now` lies after it.
    pub open spec fn due(self, now: u64) -> bool {
        self.state matches AnimationState::Running { next_tick } && now > next_tick
    }

    /// The ticker stopped, with blinking parts shown.
    pub open spec fn ended(self) -> AnimationTicker {
        AnimationTicker { state: AnimationState::Stop, render_blink: true, ..self }
    }

    /// The ticker counting, its next step due one tick duration after `now`,
    /// with blinking parts hidden.
    pub open spec fn started(self, now: u64) -> AnimationTicker {
        AnimationTicker {
            state: AnimationState::Running { next_tick: (now + self.tick_duration) as u64 },
            render_blink: false,
            ..self
        }
    }

    /// The blink flag brought up to date with the tick.
    pub open spec fn blinked(self) -> AnimationTicker {
        if BLINK_FROM <= self.tick < BLINK_UNTIL {
            AnimationTicker { render_blink: blink_at(self.tick), ..self }
        } else {
            self
        }
    }

    /// The ticker one step on, after its deadline has passed at `now`.
    pub open spec fn stepped(self, now: u64) -> (AnimationTicker, Action) {
        let rearmed = AnimationTicker {
            state: AnimationState::Running { next_tick: (now + self.tick_duration) as u64 },
            ..self
        };
        if self.reverse {
            if self.tick == 0 {
                (rearmed.ended(), Action::Noop)
            } else {
                (AnimationTicker { tick: (self.tick - 1) as usize, ..rearmed }.blinked(), Action::Tick)
            }
        } else {
            let next = AnimationTicker { tick: (self.tick + 1) as usize, ..rearmed };
            if next.tick >= self.len {
                (next.ended().blinked(), Action::Tick)
            } else {
                (next.blinked(), Action::Tick)
            }
        }
    }

    /// The ticker after `update` at `now`: untouched unless a step is due.
    pub open spec fn updated(self, now: u64) -> (AnimationTicker, Action) {
        if self.due(now) {
            self.stepped(now)
        } else {
            (self, Action::Noop)
        }
    }

    /// `update` at `now` stays within the machine's integers.
    pub open spec fn can_update(self, now: u64) -> bool {
        self.due(now) ==> now + self.tick_duration <= u64::MAX && (!self.reverse ==> self.tick
            < usize::MAX)
    }
}

impl AnimationTicker {
    /// Slows every tick set from now on by [`DEBUG_DELAY_MS`].
    pub fn debug(&mut self)
        ensures
            *final(self) == (AnimationTicker { is_debugging: true, ..*old(self) }),
    {
        self.is_debugging = true;
    }

    pub fn running(&self) -> (out: bool)
        ensures
            out == (self.state is Running),
    {
        match self.state {
            AnimationState::Running { .. } => true,
            AnimationState::Stop => false,
        }
    }

    pub fn stopped(&self) -> (out: bool)
        ensures
            out == (self.state is Stop),
    {
        match self.state {
            AnimationState::Stop => true,
            AnimationState::Running { .. } => false,
        }
    }

    /// The current tick, measured against the whole animation.
    pub fn tick(&self) -> (out: AnimationTick)
        ensures
            out == (AnimationTick { tick: self.tick, range: TickRange { start: 0, end: self.len } }),
    {
        AnimationTick { tick: self.tick, range: TickRange { start: 0, end: self.len } }
    }

    /// Advances the animation if its deadline has passed at `now`. A step
    /// that moves the tick yields `Tick`; anything else yields `Noop`.
    pub fn update(&mut self, now: u64) -> (out: Action)
        requires
            old(self).can_update(now),
        ensures
            (*final(self), out) == old(self).updated(now),
    {
        match self.state {
            AnimationState::Running { next_tick } => {
                if now > next_tick {
                    self.state = AnimationState::Running { next_tick: now + self.tick_duration };
                } else {
                    return Action::Noop;
                }
            },
            AnimationState::Stop => {
                return Action::Noop;
            },
        }
        if self.reverse {
            if self.tick == 0 {
                self.end();
                return Action::Noop;
            }
            self.tick -= 1;
        } else {
            self.tick += 1;
            if self.tick >= self.len {
                self.end();
            }
        }
        if self.is_on_range(BLINK_FROM..BLINK_UNTIL) {
            let t = self.range(BLINK_FROM..BLINK_UNTIL).tick;
            assert(t <= 40);
            assert(t * t <= 1600) by (nonlinear_arith)
                requires
                    t <= 40,
            ;
            let hundreds = t * t / 300;
            self.render_blink = hundreds % 2 == 1;
        }
        Action::Tick
    }

    /// Turns the ticker round: a ticker that counted up counts down, and back.
    pub fn reverse(&mut self)
        ensures
            *final(self) == (AnimationTicker {
                reverse: !old(self).reverse,
                ..*old(self)
            }),
    {
        self.reverse = !self.reverse;
    }

    /// Starts the animation at `now`; the first step is due one tick
    /// duration later.
    pub fn start(&mut self, now: u64)
        requires
            now + old(self).tick_duration <= u64::MAX,
        ensures
            *final(self) == old(self).started(now),
    {
        self.render_blink = false;
        self.state = AnimationState::Running { next_tick: now + self.tick_duration };
    }

    /// Stops the animation.
    pub fn end(&mut self)
        ensures
            *final(self) == old(self).ended(),
    {
        self.state = AnimationState::Stop;
        self.render_blink = true;
    }

    /// Sets the duration of a tick, in milliseconds. It applies to the
    /// deadlines set from now on.
    pub fn next_tick(&mut self, duration: u64)
        requires
            old(self).is_debugging ==> duration + DEBUG_DELAY_MS <= u64::MAX,
        ensures
            *final(self) == (AnimationTicker {
                tick_duration: if old(self).is_debugging {
                    (duration + DEBUG_DELAY_MS) as u64
                } else {
                    duration
                },
                ..*old(self)
            }),
    {
        let duration = if self.is_debugging {
            duration + DEBUG_DELAY_MS
        } else {
            duration
        };
        self.tick_duration = duration;
    }

    /// The deadline to sleep until before the next `update`, or `None` when
    /// the animation is stopped and there is nothing to wait for.
    pub fn wait_tick(&self) -> (out: Option<u64>)
        ensures
            out == (match self.state {
                AnimationState::Running { next_tick } => Some(next_tick),
                AnimationState::Stop => None,
            }),
    {
        match self.state {
            AnimationState::Running { next_tick } => Some(next_tick),
            AnimationState::Stop => None,
        }
    }

    /// The current tick measured against `range`: clamped into it and
    /// counted from its start.
    pub fn range(&self, range: Range<usize>) -> (out: AnimationTick)
        ensures
            out == (AnimationTick {
                tick: tick_within(self.tick, range.start, range.end),
                range: TickRange { start: range.start, end: range.end },
            }),
    {
        let low = if self.tick < range.end {
            self.tick
        } else {
            range.end
        };
        let clamped = if low > range.start {
            low
        } else {
            range.start
        };
        AnimationTick {
            tick: clamped - range.start,
            range: TickRange { start: range.start, end: range.end },
        }
    }

    /// Whether the current tick lies in `range`.
    pub fn is_on_range(&self, range: Range<usize>) -> (out: bool)
        ensures
            out == (range.start <= self.tick < range.end),
    {
        range.start <= self.tick && self.tick < range.end
    }
}

impl AnimationTicker {
    /// A stopped ticker of length zero at tick zero, with a tick duration of zero.
    pub open spec fn default_spec() -> AnimationTicker {
        AnimationTicker {
            is_debugging: false,
            len: 0,
            reverse: false,
            state: AnimationState::Stop,
            tick: 0,
            tick_duration: 0,
            render_blink: false,
        }
    }
}

impl Default for AnimationTicker {
    fn default() -> (out: AnimationTicker)
        ensures
            out == AnimationTicker::default_spec(),
    {
        AnimationTicker {
            is_debugging: false,
            len: 0,
            reverse: false,
            state: AnimationState::Stop,
            tick: 0,
            tick_duration: 0,
            render_blink: false,
        }
    }
}

/// Bounds of a stretch of ticks: `start` is the first, `end` the one after the last.
#[derive(Clone, Copy, Debug, PartialEq, Eq, Structural)]
pub struct TickRange {
    pub start: usize,
    pub end: usize,
}

impl From<Range<usize>> for TickRange {
    fn from(value: Range<usize>) -> (out: TickRange) {
        TickRange { start: value.start, end: value.end }
    }
}

impl vstd::std_specs::convert::FromSpecImpl<Range<usize>> for TickRange {
    open spec fn obeys_from_spec() -> bool {
        true
    }

    open spec fn from_spec(value: Range<usize>) -> TickRange {
        TickRange { start: value.start, end: value.end }
    }
}

/// A tick together with the stretch it is measured against; `tick` counts
/// from the start of the stretch.
#[derive(Clone, Copy, Debug, PartialEq, Eq, Structural)]
pub struct AnimationTick {
    pub tick: usize,
    pub range: TickRange,
}

impl std::ops::Deref for AnimationTick {
    type Target = usize;

    /// The tick, counted from the start of its stretch.
    fn deref(&self) -> (out: &usize)
        ensures
            *out == self.tick,
    {
        &self.tick
    }
}

impl AnimationTick {
    /// The tick `tick` of the stretch `range`, which may be given as a
    /// [`TickRange`] or as a range of numbers.
    pub fn new<R: Into<TickRange>>(tick: usize, range: R) -> (out: AnimationTick)
        ensures
            out.tick == tick,
            call_ensures(R::into, (range,), out.range),
    {
        AnimationTick { tick, range: range.into() }
    }

    /// Whether the tick has reached the end of its stretch.
    pub fn ended(&self) -> (out: bool)
        requires
            self.tick + self.range.start <= usize::MAX,
        ensures
            out == (self.tick + self.range.start == self.range.end),
    {
        self.tick + self.range.start == self.range.end
    }

    /// The tick counted from zero rather than from the start of the stretch.
    pub fn tick(&self) -> (out: usize)
        requires
            self.tick + self.range.start <= usize::MAX,
        ensures
            out == self.tick + self.range.start,
    {
        self.tick + self.range.start
    }

    /// The length of the stretch.
    pub fn range(&self) -> (out: usize)
        requires
            self.range.start <= self.range.end,
        ensures
            out == self.range.end - self.range.start,
    {
        self.range.end - self.range.start
    }
}

/// Content that is drawn only while an animation shows its blinking parts.
#[derive(Debug)]
pub struct Blinker<D> {
    draw: D,
}

impl<D> Blinker<D> {
    pub closed spec fn content(self) -> D {
        self.draw
    }

    pub fn new(draw: D) -> (out: Blinker<D>)
        ensures
            out.content() == draw,
    {
        Blinker { draw }
    }

    /// The content, if `state` shows blinking parts at this tick.
    pub fn draw(self, state: &AnimationTicker) -> (out: Option<D>)
        ensures
            out == (if state.render_blink {
                Some(self.content())
            } else {
                None
            }),
    {
        if state.render_blink {
            Some(self.draw)
        } else {
            None
        }
    }
}

} // verus!
