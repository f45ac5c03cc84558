//! Decisions of the character controller: when a jump starts, which way
//! the character walks, and the coyote timer that still allows a jump for
//! a short while after the character left the ground.
use vstd::prelude::*;

verus! {

/// How long after leaving the ground a jump is still allowed, in
/// nanoseconds.
pub const COYOTE_TIME_NANOS: u64 = 100_000_000;

/// Elapsed time of a one-shot timer of the given duration after it counts
/// `delta` more: it stops at the duration.
pub open spec fn ticked(elapsed: nat, duration: nat, delta: nat) -> nat {
    if elapsed + delta >= duration {
        duration
    } else {
        elapsed + delta
    }
}

/// A one-shot timer that runs while the character is in the air.
#[derive(Debug, Clone, Copy, PartialEq, Eq, Structural)]
pub struct CoyoteTimer {
    elapsed_nanos: u64,
    duration_nanos: u64,
}

impl CoyoteTimer {
    /// Time counted since the last reset, in nanoseconds.
    pub closed spec fn elapsed(self) -> nat {
        self.elapsed_nanos as nat
    }

    /// Time after which the timer is finished, in nanoseconds.
    pub closed spec fn duration(self) -> nat {
        self.duration_nanos as nat
    }

    /// The elapsed time stops at the duration, which is never zero.
    #[verifier::type_invariant]
    closed spec fn inv(self) -> bool {
        0 < self.duration_nanos && self.elapsed_nanos <= self.duration_nanos
    }

    /// Whether the timer has run out.
    pub open spec fn is_finished(self) -> bool {
        self.elapsed() >= self.duration()
    }

    /// A timer of the coyote time, just reset.
    pub fn new() -> (r: CoyoteTimer)
        ensures
            r.elapsed() == 0,
            r.duration() == COYOTE_TIME_NANOS,
    {
        CoyoteTimer { elapsed_nanos: 0, duration_nanos: COYOTE_TIME_NANOS }
    }

    /// Whether a jump is still allowed: the timer has not run out.
    pub fn can_jump(&self) -> (r: bool)
        ensures
            r == !self.is_finished(),
    {
        self.elapsed_nanos < self.duration_nanos
    }

    /// Starts counting again from zero.
    pub fn reset_timer(&mut self)
        ensures
            final(self).elapsed() == 0,
            final(self).duration() == old(self).duration(),
    {
        proof {
            use_type_invariant(&*self);
        }
        self.elapsed_nanos = 0;
    }

    /// Counts `delta_nanos` more, stopping at the duration.
    pub fn tick(&mut self, delta_nanos: u64)
        ensures
            final(self).duration() == old(self).duration(),
            final(self).elapsed() == ticked(
                old(self).elapsed(),
                old(self).duration(),
                delta_nanos as nat,
            ),
    {
        proof {
            use_type_invariant(&*self);
        }
        if delta_nanos >= self.duration_nanos - self.elapsed_nanos {
            self.elapsed_nanos = self.duration_nanos;
        } else {
            self.elapsed_nanos = self.elapsed_nanos + delta_nanos;
        }
    }

    /// One frame of the timer: on the ground it is reset, in the air it
    /// counts the frame's time.
    pub fn update(&mut self, grounded: bool, delta_nanos: u64)
        ensures
            final(self).duration() == old(self).duration(),
            grounded ==> final(self).elapsed() == 0,
            !grounded ==> final(self).elapsed() == ticked(
                old(self).elapsed(),
                old(self).duration(),
                delta_nanos as nat,
            ),
    {
        if grounded {
            self.reset_timer();
        } else {
            self.tick(delta_nanos);
        }
    }
}

impl Default for CoyoteTimer {
    fn default() -> (r: CoyoteTimer)
        ensures
            r.elapsed() == 0,
            r.duration() == COYOTE_TIME_NANOS,
    {
        CoyoteTimer::new()
    }
}

/// Whether a jump starts this frame: the jump key was just pressed, and
/// the character stands on the ground or left it within the coyote time.
pub fn should_jump(jump_just_pressed: bool, grounded: bool, coyote: &CoyoteTimer) -> (r: bool)
    ensures
        r == (jump_just_pressed && (grounded || !coyote.is_finished())),
{
    jump_just_pressed && (grounded || coyote.can_jump())
}

/// Walking direction from the two direction keys: -1 to the left, 1 to
/// the right, 0 when both or none are held.
pub fn horizontal_direction(left_pressed: bool, right_pressed: bool) -> (r: i8)
    ensures
        r == (if right_pressed {
            1int
        } else {
            0int
        }) - (if left_pressed {
            1int
        } else {
            0int
        }),
{
    let mut direction: i8 = 0;
    if left_pressed {
        direction = direction - 1;
    }
    if right_pressed {
        direction = direction + 1;
    }
    direction
}

/// Counting two frames one after the other gives the same time as
/// counting their total at once: only the time spent in the air matters,
/// not how it is cut into frames.
pub proof fn lemma_ticks_add_up(elapsed: nat, duration: nat, a: nat, b: nat)
    requires
        elapsed <= duration,
    ensures
        ticked(ticked(elapsed, duration, a), duration, b) == ticked(elapsed, duration, a + b),
{
}

} // verus!
