use vstd::arithmetic::div_mod::{
    lemma_add_mod_noop, lemma_mod_add_multiples_vanish, lemma_mod_self_0, lemma_mod_twice,
    lemma_small_mod, lemma_sub_mod_noop,
};
use vstd::prelude::*;

verus! {

/// Microseconds in one second: the unit of elapsed time.
pub const MICROS_PER_SECOND: u64 = 1_000_000;

/// Picoradians in one radian: the unit of the phase angle.
pub const PHASE_PER_RADIAN: u64 = 1_000_000_000_000;

/// One full turn, 2π radians, in picoradians (rounded to the nearest).
pub const FULL_TURN: u64 = 6_283_185_307_180;

/// The phase reached from `angle` after `elapsed` microseconds at
/// `angular_velocity` microradians per second: the true (Euclidean) remainder
/// modulo one full turn, so it always lies in `[0, FULL_TURN)` whatever the
/// sign of the angular velocity.
pub open spec fn advanced_angle(angle: int, angular_velocity: int, elapsed: int) -> int {
    (angle + angular_velocity * elapsed) % (FULL_TURN as int)
}

/// Frequency in microhertz (full turns per second, times a million) of an
/// angular velocity in microradians per second, rounded toward zero; signed
/// like the angular velocity.
pub open spec fn frequency_of(angular_velocity: int) -> int {
    if angular_velocity >= 0 {
        angular_velocity * PHASE_PER_RADIAN / (FULL_TURN as int)
    } else {
        -((-angular_velocity) * PHASE_PER_RADIAN / (FULL_TURN as int))
    }
}

/// Parameters and phase of the simulated motion.
#[derive(Clone, Copy, Debug, PartialEq, Eq, Structural)]
pub struct SimulationState {
    /// Circle radius, in length units.
    pub radius: u32,
    /// Signed angular velocity in microradians per second; its sign is the
    /// direction of rotation.
    pub angular_velocity: i32,
    /// Current phase in picoradians.
    pub angle: u64,
}

/// The starting state: radius 100, a quarter turn per second, phase 0.
impl Default for SimulationState {
    fn default() -> (s: SimulationState)
        ensures
            s.radius == 100,
            s.angular_velocity == QUARTER_TURN_PER_SECOND,
            s.angle == 0,
    {
        SimulationState { radius: 100, angular_velocity: QUARTER_TURN_PER_SECOND, angle: 0 }
    }
}

/// A quarter turn, π/2 radians, in microradians (rounded to the nearest):
/// the starting angular velocity, per second.
pub const QUARTER_TURN_PER_SECOND: i32 = 1_570_796;

impl SimulationState {
    /// The phase lies within one full turn.
    pub open spec fn wf(&self) -> bool {
        self.angle < FULL_TURN
    }

    /// Tangential velocity, `angular_velocity × radius`, in millionths of a
    /// length unit per second. It keeps the sign of the angular velocity.
    pub fn velocity(&self) -> (v: i64)
        ensures
            v == self.angular_velocity * self.radius,
    {
        assert(-0x8000_0000 * 0xffff_ffff <= self.angular_velocity * self.radius
            <= 0x8000_0000 * 0xffff_ffff) by (nonlinear_arith)
            requires
                -0x8000_0000 <= self.angular_velocity <= 0x8000_0000,
                0 <= self.radius <= 0xffff_ffff,
        ;
        (self.angular_velocity as i64) * (self.radius as i64)
    }

    /// Centripetal acceleration, `angular_velocity² × radius`, in 10^-12
    /// length units per second squared; never negative.
    pub fn centripetal_acceleration(&self) -> (a: u128)
        ensures
            a == self.angular_velocity * self.angular_velocity * self.radius,
            a >= 0,
    {
        let w: i64 = self.angular_velocity as i64;
        assert(0 <= w * w <= 0x8000_0000 * 0x8000_0000) by (nonlinear_arith)
            requires
                -0x8000_0000 <= w <= 0x8000_0000,
        ;
        let square: u64 = (w * w) as u64;
        assert(square * self.radius <= 0x8000_0000 * 0x8000_0000 * 0xffff_ffff)
            by (nonlinear_arith)
            requires
                square <= 0x8000_0000 * 0x8000_0000,
                self.radius <= 0xffff_ffff,
        ;
        (square as u128) * (self.radius as u128)
    }

    /// Rotation frequency, `angular_velocity / full turn`, in microhertz,
    /// rounded toward zero and signed like the angular velocity.
    pub fn frequency(&self) -> (f: i64)
        ensures
            f == frequency_of(self.angular_velocity as int),
    {
        let w: i64 = self.angular_velocity as i64;
        let speed: u128 = if w < 0 { (-w) as u128 } else { w as u128 };
        assert(speed * PHASE_PER_RADIAN <= 0x8000_0000 * PHASE_PER_RADIAN) by (nonlinear_arith)
            requires
                speed <= 0x8000_0000,
        ;
        let turns: u128 = speed * (PHASE_PER_RADIAN as u128) / (FULL_TURN as u128);
        assert(turns <= 0x8000_0000int * PHASE_PER_RADIAN / (FULL_TURN as int)) by (nonlinear_arith)
            requires
                turns == speed * PHASE_PER_RADIAN / (FULL_TURN as int),
                speed * PHASE_PER_RADIAN <= 0x8000_0000 * PHASE_PER_RADIAN,
        ;
        if w < 0 {
            -(turns as i64)
        } else {
            turns as i64
        }
    }

    /// Advances the phase by `elapsed` microseconds of wall-clock time.
    /// No clamping: a long pause gives a correspondingly large step, which
    /// still wraps into one full turn.
    pub fn advance(&mut self, elapsed: u64)
        ensures
            final(self).radius == old(self).radius,
            final(self).angular_velocity == old(self).angular_velocity,
            final(self).angle as int == advanced_angle(
                old(self).angle as int,
                old(self).angular_velocity as int,
                elapsed as int,
            ),
            final(self).wf(),
    {
        let m: u128 = FULL_TURN as u128;
        let w: i64 = self.angular_velocity as i64;
        let speed: u64 = if w < 0 { (-w) as u64 } else { w as u64 };
        assert(speed as int * elapsed as int <= 0x8000_0000int * 0xffff_ffff_ffff_ffffint)
            by (nonlinear_arith)
            requires
                speed <= 0x8000_0000,
        ;
        let product: u128 = (speed as u128) * (elapsed as u128);
        let step: u128 = product % m;
        let base: u128 = (self.angle as u128) % m;
        let next: u128 = if w < 0 { (base + (m - step)) % m } else { (base + step) % m };
        proof {
            let a = self.angle as int;
            let p = product as int;
            let mi = m as int;
            if w < 0 {
                // Going back by `p` is going forward by `m - p`.
                assert(self.angular_velocity as int * elapsed as int == -p) by (nonlinear_arith)
                    requires
                        speed as int == -(w as int),
                        w as int == self.angular_velocity as int,
                        p == speed as int * elapsed as int,
                ;
                lemma_add_mod_noop(a, mi - p % mi, mi);
                lemma_mod_twice(a, mi);
                assert((mi - p % mi) % mi == (mi - p) % mi) by {
                    lemma_sub_mod_noop(mi, p, mi);
                    lemma_mod_self_0(mi);
                    lemma_mod_twice(p, mi);
                }
                assert(((a % mi) + (mi - p % mi)) % mi == (a + (mi - p)) % mi) by {
                    lemma_add_mod_noop(a, mi - p, mi);
                    lemma_mod_twice(mi - p, mi);
                }
                assert((a + (mi - p)) % mi == (a - p) % mi) by {
                    lemma_mod_add_multiples_vanish(a - p, mi);
                }
            } else {
                assert(self.angular_velocity as int * elapsed as int == p);
                lemma_add_mod_noop(a, p, mi);
            }
        }
        self.angle = next as u64;
    }
}

/// Advancing by two intervals in turn lands on the same phase as advancing
/// once by their sum: the motion does not depend on how time is split into
/// frames.
pub proof fn lemma_advance_composes(angle: int, angular_velocity: int, first: int, second: int)
    ensures
        advanced_angle(advanced_angle(angle, angular_velocity, first), angular_velocity, second)
            == advanced_angle(angle, angular_velocity, first + second),
{
    let m = FULL_TURN as int;
    let x = angle + angular_velocity * first;
    let y = angular_velocity * second;
    assert(angular_velocity * (first + second) == angular_velocity * first + angular_velocity
        * second) by (nonlinear_arith);
    lemma_add_mod_noop(x, y, m);
    lemma_mod_twice(x, m);
    lemma_mod_twice(y, m);
    lemma_add_mod_noop(x % m, y, m);
}

/// With no angular velocity a phase inside one full turn never changes,
/// whatever time passes.
pub proof fn lemma_still_angle_fixed(angle: int, elapsed: int)
    requires
        0 <= angle < FULL_TURN,
    ensures
        advanced_angle(angle, 0, elapsed) == angle,
{
    lemma_small_mod(angle as nat, FULL_TURN as nat);
}

} // verus!
