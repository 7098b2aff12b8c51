//! The camera's animation state machine.
//!
//! The camera is `Idle` (no animation record) or `Animating` (one record in
//! flight). A trigger is accepted only when idle; a tick recomputes the
//! progress fraction from the clock and commits the swept orientation; when
//! the fraction clamps to exactly one, the record is retired. Time is a
//! monotonic clock reading in nanoseconds, sampled by the caller.

use vstd::prelude::*;

use crate::rotation::Generator;

verus! {

/// Default animation length: one second, in nanoseconds.
pub const DEFAULT_ROTATE_TIME: u64 = 1_000_000_000;

/// An exact progress fraction `num / den`, kept clamped to `[0, 1]`.
/// A completed animation is the canonical `1 / 1`.
#[derive(Clone, Copy, PartialEq, Eq, Structural, Debug)]
pub struct Frac {
    pub num: u64,
    pub den: u64,
}

/// A fraction in `[0, 1]` with a positive denominator.
pub open spec fn frac_valid(f: Frac) -> bool {
    1 <= f.den && f.num <= f.den
}

/// The canonical completed fraction, exactly one.
pub open spec fn frac_one() -> Frac {
    Frac { num: 1, den: 1 }
}

impl Frac {
    /// The canonical completed fraction.
    pub fn one() -> (r: Frac)
        ensures
            r == frac_one(),
    {
        Frac { num: 1, den: 1 }
    }

    /// Whether the fraction is exactly one: a valid fraction is one exactly
    /// when numerator and denominator agree.
    pub fn is_one(&self) -> (r: bool)
        ensures
            r == (self.num == self.den),
    {
        self.num == self.den
    }
}

/// A committed orientation in exact symbolic form: the fixed starting
/// orientation, or a generator's sweep at a progress fraction. The exact
/// matrix behind a pose comes from `crate::rotation`; a mid-sweep pose is
/// evaluated by sampling cosine and sine of `frac` of a right angle.
#[derive(Clone, Copy, PartialEq, Eq, Structural, Debug)]
pub enum Pose {
    /// The fixed starting orientation (`crate::rotation::initial_rotation`).
    Initial,
    /// The sweep of `gen` at progress `frac`: the double rotation by `frac`
    /// of a right angle in the generator's plane pair.
    Swept { gen: Generator, frac: Frac },
}

pub open spec fn pose_valid(p: Pose) -> bool {
    match p {
        Pose::Initial => true,
        Pose::Swept { gen, frac } => frac_valid(frac),
    }
}

/// An in-flight reorientation: the orientation it started from, the chosen
/// generator, and the clock reading at the start.
#[derive(Clone, Copy, PartialEq, Eq, Structural, Debug)]
pub struct Rotating {
    pub last_rotation: Pose,
    pub interpolate: Generator,
    pub start_time: u64,
}

/// The camera: the committed orientation, the optional in-flight animation,
/// and the fixed animation length shared by all animations.
#[derive(Clone, Copy, PartialEq, Eq, Debug)]
pub struct Camera {
    pub rotate_time: u64,
    pub rotating: Option<Rotating>,
    pub rotation: Pose,
}

/// Elapsed nanoseconds between a start reading and `now`, clamped at zero:
/// a clock reading before the start counts as no time passed.
pub open spec fn elapsed_since(start_time: u64, now: u64) -> u64 {
    if now >= start_time {
        (now - start_time) as u64
    } else {
        0
    }
}

impl Camera {
    /// Committed and recorded orientations carry fractions in `[0, 1]`.
    pub open spec fn wf(&self) -> bool {
        &&& pose_valid(self.rotation)
        &&& (self.rotating matches Some(r) ==> pose_valid(r.last_rotation))
    }

    /// A fresh camera: idle, facing the starting orientation, with the
    /// default one-second animation length.
    pub fn new() -> (c: Camera)
        ensures
            c.rotate_time == DEFAULT_ROTATE_TIME,
            c.rotating is None,
            c.rotation == Pose::Initial,
            c.wf(),
    {
        Camera {
            rotate_time: DEFAULT_ROTATE_TIME,
            rotating: None,
            rotation: Pose::Initial,
        }
    }

    /// Tries to start a reorientation by `interpolate` at clock reading
    /// `now`. Succeeds exactly when no animation is in flight; a rejected
    /// trigger is a no-op that leaves the running animation untouched.
    pub fn rotate(&mut self, interpolate: Generator, now: u64) -> (started: bool)
        ensures
            started == (old(self).rotating is None),
            !started ==> *final(self) == *old(self),
            started ==> *final(self) == (Camera {
                rotating: Some(Rotating {
                    last_rotation: old(self).rotation,
                    interpolate: interpolate,
                    start_time: now,
                }),
                ..*old(self)
            }),
    {
        if self.rotating.is_some() {
            return false;
        }
        self.rotating = Some(Rotating {
            last_rotation: self.rotation,
            interpolate: interpolate,
            start_time: now,
        });
        true
    }

    /// One animation step at clock reading `now`. Idle cameras are left
    /// untouched. An in-flight animation commits the sweep of its generator
    /// at the fraction `elapsed / rotate_time`; at or past the full
    /// duration the fraction clamps to exactly one and the animation record
    /// is retired, so a zero duration completes immediately and a clock
    /// reading before the start counts as progress zero.
    pub fn tick(&mut self, now: u64)
        requires
            old(self).wf(),
        ensures
            final(self).wf(),
            final(self).rotate_time == old(self).rotate_time,
            old(self).rotating is None ==> *final(self) == *old(self),
            old(self).rotating matches Some(r) ==> ({
                let elapsed = elapsed_since(r.start_time, now);
                if elapsed >= old(self).rotate_time {
                    &&& final(self).rotation == (Pose::Swept {
                        gen: r.interpolate,
                        frac: frac_one(),
                    })
                    &&& final(self).rotating is None
                } else {
                    &&& final(self).rotation == (Pose::Swept {
                        gen: r.interpolate,
                        frac: Frac { num: elapsed, den: old(self).rotate_time },
                    })
                    &&& final(self).rotating == old(self).rotating
                }
            }),
    {
        match self.rotating {
            None => {}
            Some(r) => {
                let elapsed: u64 = if now >= r.start_time {
                    now - r.start_time
                } else {
                    0
                };
                if elapsed >= self.rotate_time {
                    self.rotation = Pose::Swept { gen: r.interpolate, frac: Frac::one() };
                    self.rotating = None;
                } else {
                    self.rotation = Pose::Swept {
                        gen: r.interpolate,
                        frac: Frac { num: elapsed, den: self.rotate_time },
                    };
                }
            }
        }
    }
}

} // verus!
