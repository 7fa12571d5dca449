use vstd::prelude::*;
use crate::suspension::{TURN, MAX_FRAME};

verus! {

/// Half a turn, in millidegrees.
pub const HALF_TURN: u64 = 180_000;

/// Full deflection of an input axis (throttle or steer), in thousandths.
pub const AXIS_MAX: i64 = 1000;

/// Largest force at full throttle.
pub const MAX_SPEED: u64 = 1_000_000_000;

/// Largest slerp speed, in thousandths per second.
pub const MAX_SLERP_SPEED: u64 = 1_000_000_000;

/// An angle brought into `[0, TURN)`.
pub open spec fn wrap(a: int) -> int {
    a % (TURN as int)
}

/// `axis * magnitude / AXIS_MAX`, rounded toward zero.
pub open spec fn axis_scaled(axis: int, magnitude: int) -> int {
    if axis >= 0 {
        axis * magnitude / 1000
    } else {
        -((-axis) * magnitude / 1000)
    }
}

/// The signed turn, in `(-HALF_TURN, HALF_TURN]`, that takes heading
/// `from` to heading `to` the short way round.
pub open spec fn shortest_turn(from: int, to: int) -> int {
    let d = wrap(to - from);
    if d > HALF_TURN as int {
        d - TURN as int
    } else {
        d
    }
}

/// The turn of one alignment step: the fraction `fraction` (in
/// thousandths) of the short turn toward the target, rounded toward zero.
pub open spec fn limited_turn(from: int, to: int, fraction: int) -> int {
    axis_scaled(shortest_turn(from, to), fraction)
}

/// The heading after one alignment step from `from` toward `to`: the
/// spherical interpolation about the vertical axis by `fraction`.
pub open spec fn aligned(from: int, to: int, fraction: int) -> int {
    wrap(from + limited_turn(from, to, fraction))
}

/// Interpolation fraction of one alignment step, in thousandths, for a
/// slerp speed in thousandths per second and a frame of `dt` milliseconds:
/// `slerp_speed * dt`, at most the whole way.
pub open spec fn slerp_fraction(slerp_speed: int, dt: int) -> int {
    let f = slerp_speed * dt / 1000;
    if f > 1000 {
        1000
    } else {
        f
    }
}

/// Controller state: the heading the car is being turned to, the one-time
/// center-of-mass guard, and the driving constants.
#[derive(Clone, Copy, Debug, PartialEq, Eq, Structural)]
pub struct CarController {
    pub car_linear_damping: u64,
    pub rotate_to_rotation: u64,
    pub slerp_speed: u64,
    pub rotated_last_frame: bool,
    pub center_of_mass_altered: bool,
    pub speed: u64,
    pub rotate_speed: u64,
}

/// What one controller tick asks of the car body.
#[derive(Clone, Copy, Debug, PartialEq, Eq, Structural)]
pub struct ControlOutput {
    /// Force along the car's current facing (negative: backwards).
    pub force: i64,
    /// Whether the center-of-mass offset is to be applied this tick.
    pub apply_center_of_mass: bool,
    /// The car's heading after this tick's alignment step.
    pub heading: u64,
}

impl CarController {
    pub open spec fn wf(&self) -> bool {
        &&& self.rotate_to_rotation < TURN
        &&& self.speed <= MAX_SPEED
        &&& self.rotate_speed <= TURN
        &&& self.slerp_speed <= MAX_SLERP_SPEED
    }

    pub open spec fn new_spec(
        car_linear_damping: u64,
        slerp_speed: u64,
        speed: u64,
        rotate_speed: u64,
    ) -> CarController {
        CarController {
            car_linear_damping,
            rotate_to_rotation: 0,
            slerp_speed,
            rotated_last_frame: false,
            center_of_mass_altered: false,
            speed,
            rotate_speed,
        }
    }

    /// A controller at rest, aiming at heading zero, with the center of mass
    /// not yet applied.
    pub fn new(car_linear_damping: u64, slerp_speed: u64, speed: u64, rotate_speed: u64) -> (r:
        CarController)
        requires
            slerp_speed <= MAX_SLERP_SPEED,
            speed <= MAX_SPEED,
            rotate_speed <= TURN,
        ensures
            r.wf(),
            r == CarController::new_spec(car_linear_damping, slerp_speed, speed, rotate_speed),
    {
        CarController {
            car_linear_damping,
            rotate_to_rotation: 0,
            slerp_speed,
            rotated_last_frame: false,
            center_of_mass_altered: false,
            speed,
            rotate_speed,
        }
    }

    /// One controller tick for a car whose heading is `heading`. Throttle
    /// gives a force along the facing; a non-zero steer sets a new target
    /// heading, the current one turned by the steering increment; with no
    /// steer the target holds. The heading then turns toward the target the
    /// short way, by at most `slerp_speed * dt`. The first tick asks for the
    /// center-of-mass offset, no later one does.
    pub fn car_controls(&mut self, throttle: i64, steer: i64, heading: u64, dt: u64) -> (out:
        ControlOutput)
        requires
            old(self).wf(),
            -AXIS_MAX <= throttle <= AXIS_MAX,
            -AXIS_MAX <= steer <= AXIS_MAX,
            heading < TURN,
            dt <= MAX_FRAME,
        ensures
            final(self).wf(),
            out.force == axis_scaled(throttle as int, old(self).speed as int),
            out.apply_center_of_mass == !old(self).center_of_mass_altered,
            final(self).center_of_mass_altered,
            final(self).rotated_last_frame == (steer != 0),
            final(self).rotate_to_rotation == if steer != 0 {
                wrap(heading + axis_scaled(steer as int, old(self).rotate_speed as int))
            } else {
                old(self).rotate_to_rotation as int
            },
            out.heading == aligned(
                heading as int,
                final(self).rotate_to_rotation as int,
                slerp_fraction(old(self).slerp_speed as int, dt as int),
            ),
            final(self).car_linear_damping == old(self).car_linear_damping,
            final(self).slerp_speed == old(self).slerp_speed,
            final(self).speed == old(self).speed,
            final(self).rotate_speed == old(self).rotate_speed,
    {
        let apply = !self.center_of_mass_altered;
        self.center_of_mass_altered = true;

        proof {
            let s = self.speed as int;
            let t = throttle as int;
            if t >= 0 {
                assert(0 <= t * s <= 1000 * 1_000_000_000) by (nonlinear_arith)
                    requires 0 <= t <= 1000, 0 <= s <= 1_000_000_000;
            } else {
                assert(0 <= (-t) * s <= 1000 * 1_000_000_000) by (nonlinear_arith)
                    requires -1000 <= t <= 0, 0 <= s <= 1_000_000_000;
            }
        }
        let force: i64 = if throttle >= 0 {
            (throttle * self.speed as i64) / 1000
        } else {
            -(((-throttle) * self.speed as i64) / 1000)
        };

        if steer != 0 {
            proof {
                let r = self.rotate_speed as int;
                let st = steer as int;
                if st >= 0 {
                    assert(0 <= st * r <= 1000 * 360_000) by (nonlinear_arith)
                        requires 0 <= st <= 1000, 0 <= r <= 360_000;
                    assert(0 <= st * r / 1000 <= 360_000) by (nonlinear_arith)
                        requires 0 <= st * r <= 1000 * 360_000;
                } else {
                    assert(0 <= (-st) * r <= 1000 * 360_000) by (nonlinear_arith)
                        requires -1000 <= st <= 0, 0 <= r <= 360_000;
                    assert(0 <= (-st) * r / 1000 <= 360_000) by (nonlinear_arith)
                        requires 0 <= (-st) * r <= 1000 * 360_000;
                }
            }
            let inc: i64 = if steer >= 0 {
                (steer * self.rotate_speed as i64) / 1000
            } else {
                -(((-steer) * self.rotate_speed as i64) / 1000)
            };
            let sum: i64 = heading as i64 + inc;
            self.rotate_to_rotation = wrap_angle(sum);
            self.rotated_last_frame = true;
        } else {
            self.rotated_last_frame = false;
        }

        proof {
            let sp = self.slerp_speed as int;
            let d = dt as int;
            assert(0 <= sp * d <= 1_000_000_000 * 1_000_000) by (nonlinear_arith)
                requires 0 <= sp <= 1_000_000_000, 0 <= d <= 1_000_000;
        }
        let f: u64 = self.slerp_speed * dt / 1000;
        let fraction: u64 = if f > 1000 { 1000 } else { f };
        let new_heading = align_step(heading, self.rotate_to_rotation, fraction);
        ControlOutput { force, apply_center_of_mass: apply, heading: new_heading }
    }
}

/// An angle within one turn either side of `[0, TURN)`, brought into it.
pub fn wrap_angle(a: i64) -> (r: u64)
    requires
        -(TURN as int) <= a < 2 * TURN as int,
    ensures
        r == wrap(a as int),
        r < TURN,
{
    let t: i64 = TURN as i64;
    let w: i64 = if a < 0 {
        a + t
    } else if a >= t {
        a - t
    } else {
        a
    };
    proof {
        let ai = a as int;
        let ti = t as int;
        assert(w as int == ai % ti) by (nonlinear_arith)
            requires
                -ti <= ai < 2 * ti,
                ti == 360_000,
                w as int == if ai < 0 { ai + ti } else if ai >= ti { ai - ti } else { ai };
    }
    w as u64
}

/// One alignment step from heading `from` toward `to`: the fraction
/// `fraction` (thousandths) of the short way round.
pub fn align_step(from: u64, to: u64, fraction: u64) -> (r: u64)
    requires
        from < TURN,
        to < TURN,
        fraction <= 1000,
    ensures
        r == aligned(from as int, to as int, fraction as int),
        r < TURN,
{
    let d0: u64 = wrap_angle(to as i64 - from as i64);
    let d: i64 = if d0 > HALF_TURN {
        d0 as i64 - TURN as i64
    } else {
        d0 as i64
    };
    proof {
        let di = d as int;
        let fi = fraction as int;
        if di >= 0 {
            assert(0 <= di * fi / 1000 <= di) by (nonlinear_arith)
                requires 0 <= di, 0 <= fi <= 1000;
        } else {
            assert(0 <= (-di) * fi / 1000 <= -di) by (nonlinear_arith)
                requires di < 0, 0 <= fi <= 1000;
        }
    }
    let s: i64 = if d >= 0 {
        d * fraction as i64 / 1000
    } else {
        -((-d) * fraction as i64 / 1000)
    };
    wrap_angle(from as i64 + s)
}

/// Center-of-mass applications over `n` controller ticks that start with
/// the guard set to `altered`.
pub open spec fn center_of_mass_applications(altered: bool, n: nat) -> nat
    decreases n,
{
    if n == 0 {
        0
    } else {
        (if altered { 0nat } else { 1nat }) + center_of_mass_applications(true, (n - 1) as nat)
    }
}

/// Over any number of ticks after the first, the center-of-mass offset is
/// applied exactly once; once the guard is set it is never applied again.
pub proof fn lemma_center_of_mass_once(altered: bool, n: nat)
    ensures
        altered ==> center_of_mass_applications(altered, n) == 0,
        !altered && n >= 1 ==> center_of_mass_applications(altered, n) == 1,
    decreases n,
{
    if n > 0 {
        lemma_center_of_mass_once(true, (n - 1) as nat);
    }
}

/// One alignment step turns the heading toward the target the short way,
/// by no more than the fraction `fraction` of the remaining angle, and
/// never past the target: the remaining short turn afterwards is what was
/// left minus the step, so the heading approaches the target without
/// overshooting. The whole fraction lands on the target, and a car already
/// facing its target stays put.
pub proof fn lemma_align_no_overshoot(from: int, to: int, fraction: int)
    requires
        0 <= from < TURN as int,
        0 <= to < TURN as int,
        0 <= fraction <= 1000,
    ensures
        ({
            let d = shortest_turn(from, to);
            let s = limited_turn(from, to, fraction);
            &&& d >= 0 ==> 0 <= s <= d && s * 1000 <= d * fraction
            &&& d <= 0 ==> d <= s <= 0 && -s * 1000 <= -d * fraction
            &&& shortest_turn(aligned(from, to, fraction), to) == d - s
        }),
        fraction == 1000 ==> aligned(from, to, fraction) == to,
        aligned(to, to, fraction) == to,
{
    let t = TURN as int;
    let h = HALF_TURN as int;
    let q = wrap(to - from);
    assert(q == if to - from >= 0 { to - from } else { to - from + t }) by (nonlinear_arith)
        requires
            -t < to - from < t,
            t == 360_000,
            q == (to - from) % t;
    let d = shortest_turn(from, to);
    let s = limited_turn(from, to, fraction);
    if d >= 0 {
        assert(0 <= d * fraction / 1000 <= d && (d * fraction / 1000) * 1000 <= d * fraction)
            by (nonlinear_arith)
            requires 0 <= d, 0 <= fraction <= 1000;
    } else {
        assert(0 <= (-d) * fraction / 1000 <= -d && ((-d) * fraction / 1000) * 1000 <= (-d)
            * fraction) by (nonlinear_arith)
            requires d < 0, 0 <= fraction <= 1000;
    }
    if fraction == 1000 {
        assert(d * 1000 / 1000 == d) by (nonlinear_arith);
        assert((-d) * 1000 / 1000 == -d) by (nonlinear_arith);
    }
    let x = aligned(from, to, fraction);
    assert(x == wrap(from + s));
    assert(x == from + s || x == from + s - t || x == from + s + t) by (nonlinear_arith)
        requires
            -h < from + s < t + h,
            x == (from + s) % t,
            t == 360_000,
            h == 180_000;
    let w = wrap(to - x);
    assert(w == if d - s >= 0 { d - s } else { d - s + t }) by (nonlinear_arith)
        requires
            to - x == d - s || to - x == d - s - t || to - x == d - s + t || to - x == d - s
                - 2 * t || to - x == d - s + 2 * t,
            -h < d - s <= h,
            w == (to - x) % t,
            t == 360_000,
            h == 180_000;
    assert(wrap(to - to) == 0);
}

} // verus!
