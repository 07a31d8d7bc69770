//! The playback clock of a linear animation: an explicit time cursor, a
//! direction, and a loop mode.
//!
//! Times are carried in whole microseconds. Advancing moves the cursor by
//! the elapsed time in the current direction and then applies the loop
//! mode: a one-shot clamps at the ends, a loop wraps, and a ping-pong
//! reflects and reverses. Advancing reports whether the animation is
//! still going; a one-shot already at its end with nothing elapsed
//! reports that nothing more will happen.

use vstd::prelude::*;

verus! {

/// Which way the clock runs.
#[derive(Clone, Copy, Debug, PartialEq, Eq, Structural)]
pub enum Direction {
    Forwards,
    Backwards,
}

/// What happens when the clock reaches an end of the animation.
#[derive(Clone, Copy, Debug, PartialEq, Eq, Structural)]
pub enum Loop {
    /// Play to the end, then stop there.
    OneShot,
    /// Play to the end, then start over from the beginning.
    Loop,
    /// Play to the end, then play back reversed.
    PingPong,
}

/// A description of one animation of an artboard: what instantiation
/// copies its playback state from.
#[derive(Debug)]
pub struct AnimationDesc {
    pub name: String,
    pub duration_us: u64,
    pub loop_mode: Loop,
}

/// The descriptions agree in every field.
pub open spec fn anim_matches(a: AnimationDesc, b: AnimationDesc) -> bool {
    &&& a.name@ == b.name@
    &&& a.duration_us == b.duration_us
    &&& a.loop_mode == b.loop_mode
}

/// Copies an animation description.
pub fn clone_anim(a: &AnimationDesc) -> (r: AnimationDesc)
    ensures
        anim_matches(r, *a),
{
    AnimationDesc { name: a.name.clone(), duration_us: a.duration_us, loop_mode: a.loop_mode }
}

/// The clock position after advancing from `time` by `elapsed` in the
/// given mode and direction, as (new time, new direction, looped). All
/// positions stay within `[0, d]`.
pub open spec fn advanced(
    mode: Loop, d: u64, time: u64, dir: Direction, elapsed: u64,
) -> (u64, Direction, bool) {
    match mode {
        Loop::OneShot => match dir {
            Direction::Forwards => {
                let t = time + elapsed;
                if t > d {
                    (d, dir, true)
                } else {
                    (t as u64, dir, false)
                }
            }
            Direction::Backwards => {
                if elapsed > time {
                    (0u64, dir, true)
                } else {
                    ((time - elapsed) as u64, dir, false)
                }
            }
        },
        Loop::Loop => match dir {
            Direction::Forwards => {
                let t = time + elapsed;
                if d == 0 {
                    (0u64, dir, t != 0)
                } else if t >= d {
                    ((t % (d as int)) as u64, dir, true)
                } else {
                    (t as u64, dir, false)
                }
            }
            Direction::Backwards => {
                if elapsed <= time {
                    ((time - elapsed) as u64, dir, false)
                } else if d == 0 {
                    (0u64, dir, true)
                } else {
                    let m = (elapsed - time) % (d as int);
                    if m == 0 {
                        (0u64, dir, true)
                    } else {
                        ((d - m) as u64, dir, true)
                    }
                }
            }
        },
        Loop::PingPong => match dir {
            Direction::Forwards => {
                let t = time + elapsed;
                if t <= d {
                    (t as u64, dir, false)
                } else if d == 0 {
                    (0u64, dir, true)
                } else {
                    let p = t % (2 * d as int);
                    if p <= d {
                        (p as u64, Direction::Forwards, true)
                    } else {
                        ((2 * d - p) as u64, Direction::Backwards, true)
                    }
                }
            }
            Direction::Backwards => {
                if elapsed <= time {
                    ((time - elapsed) as u64, dir, false)
                } else if d == 0 {
                    (0u64, dir, true)
                } else {
                    let p = (elapsed - time) % (2 * d as int);
                    if p <= d {
                        (p as u64, Direction::Forwards, true)
                    } else {
                        ((2 * d - p) as u64, Direction::Backwards, true)
                    }
                }
            }
        },
    }
}

/// Whether the animation keeps going after its clock lands on `time`
/// heading in `dir`: a one-shot stops at the end it is heading for,
/// everything else keeps going.
pub open spec fn keeps_going(mode: Loop, d: u64, time: u64, dir: Direction) -> bool {
    match mode {
        Loop::OneShot => match dir {
            Direction::Forwards => time < d,
            Direction::Backwards => time > 0,
        },
        _ => true,
    }
}

/// A linear animation instance: its description plus its playback state.
#[derive(Debug)]
pub struct LinearAnimation {
    pub name: String,
    pub duration_us: u64,
    pub loop_mode: Loop,
    pub time_us: u64,
    pub direction: Direction,
    pub did_loop: bool,
}

impl LinearAnimation {
    /// The clock never leaves the animation's span.
    pub open spec fn wf(self) -> bool {
        self.time_us <= self.duration_us
    }

    /// A fresh instance of the described animation, at the start, playing
    /// forwards.
    pub fn from_desc(desc: &AnimationDesc) -> (r: LinearAnimation)
        ensures
            r.name@ == desc.name@,
            r.duration_us == desc.duration_us,
            r.loop_mode == desc.loop_mode,
            r.time_us == 0,
            r.direction == Direction::Forwards,
            !r.did_loop,
            r.wf(),
    {
        LinearAnimation {
            name: desc.name.clone(),
            duration_us: desc.duration_us,
            loop_mode: desc.loop_mode,
            time_us: 0,
            direction: Direction::Forwards,
            did_loop: false,
        }
    }

    /// The current clock position, in microseconds.
    pub fn time(&self) -> (r: u64)
        ensures
            r == self.time_us,
    {
        self.time_us
    }

    /// Moves the clock, clamped into the animation's span.
    pub fn set_time(&mut self, time_us: u64)
        ensures
            final(self).time_us == (if time_us <= old(self).duration_us {
                time_us
            } else {
                old(self).duration_us
            }),
            final(self).duration_us == old(self).duration_us,
            final(self).loop_mode == old(self).loop_mode,
            final(self).direction == old(self).direction,
            final(self).did_loop == old(self).did_loop,
            final(self).name == old(self).name,
            final(self).wf(),
    {
        if time_us <= self.duration_us {
            self.time_us = time_us;
        } else {
            self.time_us = self.duration_us;
        }
    }

    /// The current direction.
    pub fn direction(&self) -> (r: Direction)
        ensures
            r == self.direction,
    {
        self.direction
    }

    /// Sets the direction.
    pub fn set_direction(&mut self, direction: Direction)
        ensures
            *final(self) == (LinearAnimation { direction, ..*old(self) }),
    {
        self.direction = direction;
    }

    /// Sets the loop mode.
    pub fn set_loop(&mut self, loop_mode: Loop)
        ensures
            *final(self) == (LinearAnimation { loop_mode, ..*old(self) }),
    {
        self.loop_mode = loop_mode;
    }

    /// Whether the last advance wrapped, reflected, or hit an end.
    pub fn did_loop(&self) -> (r: bool)
        ensures
            r == self.did_loop,
    {
        self.did_loop
    }

    /// Whether the animation is finished: a one-shot whose clock stands
    /// at the end it is heading for.
    pub fn is_done(&self) -> (r: bool)
        ensures
            r == !keeps_going(self.loop_mode, self.duration_us, self.time_us, self.direction),
    {
        match self.loop_mode {
            Loop::OneShot => match self.direction {
                Direction::Forwards => self.time_us >= self.duration_us,
                Direction::Backwards => self.time_us == 0,
            },
            _ => false,
        }
    }

    /// Advances the clock by the elapsed time and applies the loop mode;
    /// reports whether the animation is still going afterwards.
    pub fn advance(&mut self, elapsed_us: u64) -> (r: bool)
        requires
            old(self).wf(),
        ensures
            ({
                let (t, dir, looped) = advanced(
                    old(self).loop_mode, old(self).duration_us, old(self).time_us,
                    old(self).direction, elapsed_us,
                );
                &&& final(self).time_us == t
                &&& final(self).direction == dir
                &&& final(self).did_loop == looped
            }),
            final(self).duration_us == old(self).duration_us,
            final(self).loop_mode == old(self).loop_mode,
            final(self).name == old(self).name,
            final(self).wf(),
            r == keeps_going(
                old(self).loop_mode, old(self).duration_us, final(self).time_us,
                final(self).direction,
            ),
    {
        let d = self.duration_us;
        match self.loop_mode {
            Loop::OneShot => {
                match self.direction {
                    Direction::Forwards => {
                        if elapsed_us > d - self.time_us {
                            self.time_us = d;
                            self.did_loop = true;
                        } else {
                            self.time_us = self.time_us + elapsed_us;
                            self.did_loop = false;
                        }
                    }
                    Direction::Backwards => {
                        if elapsed_us > self.time_us {
                            self.time_us = 0;
                            self.did_loop = true;
                        } else {
                            self.time_us = self.time_us - elapsed_us;
                            self.did_loop = false;
                        }
                    }
                }
            }
            Loop::Loop => {
                match self.direction {
                    Direction::Forwards => {
                        let t = (self.time_us as u128) + (elapsed_us as u128);
                        if d == 0 {
                            self.time_us = 0;
                            self.did_loop = t != 0;
                        } else if t >= d as u128 {
                            self.time_us = (t % (d as u128)) as u64;
                            self.did_loop = true;
                        } else {
                            self.time_us = t as u64;
                            self.did_loop = false;
                        }
                    }
                    Direction::Backwards => {
                        if elapsed_us <= self.time_us {
                            self.time_us = self.time_us - elapsed_us;
                            self.did_loop = false;
                        } else if d == 0 {
                            self.time_us = 0;
                            self.did_loop = true;
                        } else {
                            let m = (elapsed_us - self.time_us) % d;
                            if m == 0 {
                                self.time_us = 0;
                            } else {
                                self.time_us = d - m;
                            }
                            self.did_loop = true;
                        }
                    }
                }
            }
            Loop::PingPong => {
                match self.direction {
                    Direction::Forwards => {
                        let t = (self.time_us as u128) + (elapsed_us as u128);
                        if t <= d as u128 {
                            self.time_us = t as u64;
                            self.did_loop = false;
                        } else if d == 0 {
                            self.time_us = 0;
                            self.did_loop = true;
                        } else {
                            let p = t % (2 * (d as u128));
                            if p <= d as u128 {
                                self.time_us = p as u64;
                                self.direction = Direction::Forwards;
                            } else {
                                self.time_us = (2 * (d as u128) - p) as u64;
                                self.direction = Direction::Backwards;
                            }
                            self.did_loop = true;
                        }
                    }
                    Direction::Backwards => {
                        if elapsed_us <= self.time_us {
                            self.time_us = self.time_us - elapsed_us;
                            self.did_loop = false;
                        } else if d == 0 {
                            self.time_us = 0;
                            self.did_loop = true;
                        } else {
                            let p = ((elapsed_us - self.time_us) as u128) % (2 * (d as u128));
                            if p <= d as u128 {
                                self.time_us = p as u64;
                                self.direction = Direction::Forwards;
                            } else {
                                self.time_us = (2 * (d as u128) - p) as u64;
                                self.direction = Direction::Backwards;
                            }
                            self.did_loop = true;
                        }
                    }
                }
            }
        }
        match self.loop_mode {
            Loop::OneShot => match self.direction {
                Direction::Forwards => self.time_us < d,
                Direction::Backwards => self.time_us > 0,
            },
            _ => true,
        }
    }

    /// Applying the animation's current pose to the artboard is the
    /// engine's work; the clock itself is unchanged by it.
    pub fn apply(&mut self, mix: i64)
        ensures
            *final(self) == *old(self),
    {
    }

    /// Advances the clock and applies the pose; reports whether the
    /// animation is still going.
    pub fn advance_and_apply(&mut self, elapsed_us: u64) -> (r: bool)
        requires
            old(self).wf(),
        ensures
            ({
                let (t, dir, looped) = advanced(
                    old(self).loop_mode, old(self).duration_us, old(self).time_us,
                    old(self).direction, elapsed_us,
                );
                &&& final(self).time_us == t
                &&& final(self).direction == dir
                &&& final(self).did_loop == looped
            }),
            final(self).duration_us == old(self).duration_us,
            final(self).loop_mode == old(self).loop_mode,
            final(self).name == old(self).name,
            final(self).wf(),
            r == keeps_going(
                old(self).loop_mode, old(self).duration_us, final(self).time_us,
                final(self).direction,
            ),
    {
        let keep = self.advance(elapsed_us);
        self.apply(OPACITY_MIX_FULL);
        keep
    }
}

/// A full mix: the animation's pose is applied at full strength, in the
/// same 1/65536 units opacities use.
pub const OPACITY_MIX_FULL: i64 = 65536;

/// A one-shot animation standing at the end it is heading for does not
/// move and reports that nothing more will happen, whatever time
/// elapsed is zero: advancing by nothing changes neither clock nor
/// direction and keeps-going is false exactly at the ends.
pub proof fn lemma_oneshot_at_end_stays(d: u64, time: u64, dir: Direction)
    requires
        time <= d,
    ensures
        advanced(Loop::OneShot, d, time, dir, 0) == (time, dir, false),
        !keeps_going(Loop::OneShot, d, time, dir) <==> (match dir {
            Direction::Forwards => time == d,
            Direction::Backwards => time == 0,
        }),
{
}

} // verus!
