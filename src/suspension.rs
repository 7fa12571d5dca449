use vstd::prelude::*;
use crate::geometry::Vec3i;

verus! {

/// Fixed-point scale of a compression: `0` is fully extended, `SCALE` fully
/// compressed.
pub const SCALE: u64 = 1000;

/// Longest rest length a wheel may have, in millimetres.
pub const MAX_REST_LENGTH: u64 = 1_000_000;

/// Largest spring stiffness or damping coefficient accepted.
pub const MAX_COEFFICIENT: u64 = 1_000_000;

/// One full turn of the rolling animation, in millidegrees.
pub const TURN: u64 = 360_000;

/// What a ground probe reports for one wheel.
#[derive(Clone, Copy, Debug, PartialEq, Eq, Structural)]
pub enum Probe {
    Hit { distance: u64, normal: Vec3i },
    NoHit,
}

impl Probe {
    pub open spec fn wf(self) -> bool {
        match self {
            Probe::Hit { normal, .. } => normal.is_direction(),
            Probe::NoHit => true,
        }
    }
}

/// Turns the nearest intersection of a ray cast (distance along the ray
/// and surface normal), if any, into a probe result: an intersection
/// farther than `max_length` is no contact.
pub fn ground_probe(cast: Option<(u64, Vec3i)>, max_length: u64) -> (p: Probe)
    ensures
        p == match cast {
            Some((d, n)) => if d <= max_length {
                Probe::Hit { distance: d, normal: n }
            } else {
                Probe::NoHit
            },
            None => Probe::NoHit,
        },
{
    match cast {
        Some((d, n)) => {
            if d <= max_length {
                Probe::Hit { distance: d, normal: n }
            } else {
                Probe::NoHit
            }
        },
        None => Probe::NoHit,
    }
}

/// Compression of a spring of length `rest` whose ray hit at `d`:
/// `(rest - d) / rest` in thousandths, clamped to `[0, SCALE]`.
pub open spec fn compression_of(rest: int, d: int) -> int {
    if d >= rest {
        0
    } else {
        (rest - d) * SCALE as int / rest
    }
}

/// An airborne wheel's compression after one tick of relaxing by `step`.
pub open spec fn relaxed(c: int, step: int) -> int {
    if c > step {
        c - step
    } else {
        0
    }
}

/// Longest frame, in milliseconds.
pub const MAX_FRAME: u64 = 1_000_000;

/// Rate of change of compression from `prev` to `c` over a frame of `dt`
/// milliseconds, in thousandths per second, rounded toward zero.
pub open spec fn compression_rate(prev: int, c: int, dt: int) -> int {
    if c >= prev {
        (c - prev) * 1000 / dt
    } else {
        -((prev - c) * 1000 / dt)
    }
}

/// Spring force magnitude `stiffness * c` plus the damping term
/// `damping * rate`.
pub open spec fn spring_force(stiffness: int, c: int, damping: int, rate: int) -> int {
    stiffness * c + damping * rate
}

/// Height of the wheel mesh below its mount at compression `c`.
pub open spec fn rest_offset(rest: int, c: int) -> int {
    rest * (SCALE as int - c) / SCALE as int
}

/// `cur` moved toward `target` by at most `step`, never past it.
pub open spec fn approached(cur: int, target: int, step: int) -> int {
    if cur < target {
        if cur + step < target { cur + step } else { target }
    } else {
        if cur - step > target { cur - step } else { target }
    }
}

/// Why a wheel's configuration is rejected.
#[derive(Clone, Copy, Debug, PartialEq, Eq, Structural)]
pub enum ConfigError {
    RestLength,
    Stiffness,
    Damping,
}

/// The suspension state of one wheel and the local transform of its mesh.
#[derive(Clone, Copy, Debug, PartialEq, Eq, Structural)]
pub struct Wheel {
    pub entity: u64,
    pub rest_length: u64,
    pub stiffness: u64,
    pub damping: u64,
    pub compression: u64,
    pub grounded: bool,
    pub normal: Vec3i,
    pub offset: u64,
    pub roll: u64,
}

impl Wheel {
    pub open spec fn wf(self) -> bool {
        0 < self.rest_length <= MAX_REST_LENGTH && 0 < self.stiffness <= MAX_COEFFICIENT
            && self.damping <= MAX_COEFFICIENT && self.compression <= SCALE
            && self.offset <= self.rest_length && self.roll < TURN
    }

    pub open spec fn config_valid(rest_length: u64, stiffness: u64, damping: u64) -> bool {
        0 < rest_length <= MAX_REST_LENGTH && 0 < stiffness <= MAX_COEFFICIENT
            && damping <= MAX_COEFFICIENT
    }

    /// A fully extended, airborne wheel. The configuration is checked here,
    /// once, rather than every tick.
    pub fn new(entity: u64, rest_length: u64, stiffness: u64, damping: u64) -> (r: Result<
        Wheel,
        ConfigError,
    >)
        ensures
            Wheel::config_valid(rest_length, stiffness, damping) <==> r is Ok,
            r is Ok ==> r->Ok_0.wf() && r->Ok_0 == (Wheel {
                entity,
                rest_length,
                stiffness,
                damping,
                compression: 0,
                grounded: false,
                normal: Vec3i { x: 0, y: 1000, z: 0 },
                offset: rest_length,
                roll: 0,
            }),
            (rest_length == 0 || rest_length > MAX_REST_LENGTH) <==> r == Err::<Wheel, ConfigError>(
                ConfigError::RestLength,
            ),
            (0 < rest_length <= MAX_REST_LENGTH && (stiffness == 0 || stiffness > MAX_COEFFICIENT))
                <==> r == Err::<Wheel, ConfigError>(ConfigError::Stiffness),
            (0 < rest_length <= MAX_REST_LENGTH && 0 < stiffness <= MAX_COEFFICIENT && damping
                > MAX_COEFFICIENT) <==> r == Err::<Wheel, ConfigError>(ConfigError::Damping),
    {
        if rest_length == 0 || rest_length > MAX_REST_LENGTH {
            return Err(ConfigError::RestLength);
        }
        if stiffness == 0 || stiffness > MAX_COEFFICIENT {
            return Err(ConfigError::Stiffness);
        }
        if damping > MAX_COEFFICIENT {
            return Err(ConfigError::Damping);
        }
        Ok(Wheel {
            entity,
            rest_length,
            stiffness,
            damping,
            compression: 0,
            grounded: false,
            normal: Vec3i { x: 0, y: 1000, z: 0 },
            offset: rest_length,
            roll: 0,
        })
    }

    /// The suspension step of one tick, as a relation between the wheel
    /// before and after and the force applied at its mount.
    pub open spec fn suspension_step(
        self,
        next: Wheel,
        p: Probe,
        relax: int,
        dt: int,
        force: Vec3i,
    ) -> bool {
        &&& next.entity == self.entity && next.rest_length == self.rest_length
        &&& next.stiffness == self.stiffness && next.damping == self.damping
        &&& next.offset == self.offset && next.roll == self.roll
        &&& match p {
            Probe::Hit { distance, normal } => {
                let f = spring_force(
                    self.stiffness as int,
                    next.compression as int,
                    self.damping as int,
                    compression_rate(self.compression as int, next.compression as int, dt),
                );
                &&& next.compression == compression_of(self.rest_length as int, distance as int)
                &&& next.grounded
                &&& next.normal == normal
                &&& (force.x as int, force.y as int, force.z as int) == crate::geometry::scaled(
                    normal,
                    f,
                )
            },
            Probe::NoHit => {
                &&& next.compression == relaxed(self.compression as int, relax)
                &&& !next.grounded
                &&& next.normal == self.normal
                &&& force == Vec3i { x: 0, y: 0, z: 0 }
            },
        }
    }

    /// Reads this tick's probe, for a frame of `dt` milliseconds: a hit
    /// sets the compression from the hit distance and yields the
    /// spring-damper force along the hit normal; no contact lets the
    /// compression relax toward zero by `relax` and yields no force.
    pub fn update_suspension(&mut self, p: Probe, relax: u64, dt: u64) -> (force: Vec3i)
        requires
            old(self).wf(),
            p.wf(),
            relax > 0,
            0 < dt <= MAX_FRAME,
        ensures
            final(self).wf(),
            old(self).suspension_step(*final(self), p, relax as int, dt as int, force),
    {
        match p {
            Probe::Hit { distance, normal } => {
                let c: u64 = if distance >= self.rest_length {
                    0
                } else {
                    proof {
                        let r = self.rest_length as int;
                        let d = distance as int;
                        assert((r - d) * 1000 <= r * 1000) by (nonlinear_arith)
                            requires d < r, 0 <= d;
                        assert((r - d) * 1000 / r <= 1000) by (nonlinear_arith)
                            requires d < r, 0 <= d, r > 0;
                    }
                    (self.rest_length - distance) * SCALE / self.rest_length
                };
                proof {
                    let k = self.stiffness as int;
                    let ci = c as int;
                    assert(0 <= k * ci <= 1_000_000_000) by (nonlinear_arith)
                        requires 0 <= k <= 1_000_000, 0 <= ci <= 1000;
                }
                let rate: i64 = if c >= self.compression {
                    ((c - self.compression) * 1000 / dt) as i64
                } else {
                    -(((self.compression - c) * 1000 / dt) as i64)
                };
                proof {
                    let dmp = self.damping as int;
                    let ri = rate as int;
                    let ch = if c >= self.compression { c - self.compression } else { self.compression - c } as int;
                    assert(0 <= ch * 1000 / (dt as int) <= 1_000_000) by (nonlinear_arith)
                        requires 0 <= ch <= 1000, dt >= 1;
                    assert(-1_000_000_000_000 <= dmp * ri <= 1_000_000_000_000) by (nonlinear_arith)
                        requires 0 <= dmp <= 1_000_000, -1_000_000 <= ri <= 1_000_000;
                }
                let m: i64 = (self.stiffness * c) as i64 + (self.damping as i64) * rate;
                proof {
                    let nx = normal.x as int;
                    assert(-2_000_000_000_000_000 <= nx * (m as int) <= 2_000_000_000_000_000)
                        by (nonlinear_arith)
                        requires -1000 <= nx <= 1000, -2_000_000_000_000 <= m <= 2_000_000_000_000;
                    let ny = normal.y as int;
                    assert(-2_000_000_000_000_000 <= ny * (m as int) <= 2_000_000_000_000_000)
                        by (nonlinear_arith)
                        requires -1000 <= ny <= 1000, -2_000_000_000_000 <= m <= 2_000_000_000_000;
                    let nz = normal.z as int;
                    assert(-2_000_000_000_000_000 <= nz * (m as int) <= 2_000_000_000_000_000)
                        by (nonlinear_arith)
                        requires -1000 <= nz <= 1000, -2_000_000_000_000 <= m <= 2_000_000_000_000;
                }
                self.compression = c;
                self.grounded = true;
                self.normal = normal;
                Vec3i { x: normal.x * m, y: normal.y * m, z: normal.z * m }
            },
            Probe::NoHit => {
                self.compression = if self.compression > relax {
                    self.compression - relax
                } else {
                    0
                };
                self.grounded = false;
                Vec3i { x: 0, y: 0, z: 0 }
            },
        }
    }

    /// Position of the wheel mesh: its offset below the mount approaches
    /// `rest_length * (1 - compression)` by at most `grounded_speed` per
    /// tick on the ground and `idle_speed` in the air; its rolling angle
    /// advances by `roll_delta`, whatever the compression.
    pub fn update_visual(&mut self, grounded_speed: u64, idle_speed: u64, roll_delta: i64)
        requires
            old(self).wf(),
        ensures
            final(self).wf(),
            final(self).offset == approached(
                old(self).offset as int,
                rest_offset(old(self).rest_length as int, old(self).compression as int),
                if old(self).grounded { grounded_speed as int } else { idle_speed as int },
            ),
            final(self).roll == (old(self).roll as int + roll_delta as int) % (TURN as int),
            final(self).entity == old(self).entity,
            final(self).rest_length == old(self).rest_length,
            final(self).stiffness == old(self).stiffness,
            final(self).damping == old(self).damping,
            final(self).compression == old(self).compression,
            final(self).grounded == old(self).grounded,
            final(self).normal == old(self).normal,
    {
        proof {
            let r = self.rest_length as int;
            let c = self.compression as int;
            assert(0 <= r * (1000 - c) <= r * 1000) by (nonlinear_arith)
                requires 0 <= c <= 1000, r >= 0;
            assert(r * (1000 - c) / 1000 <= r) by (nonlinear_arith)
                requires 0 <= r * (1000 - c) <= r * 1000, r >= 0;
        }
        let target: u64 = self.rest_length * (SCALE - self.compression) / SCALE;
        let step: u64 = if self.grounded { grounded_speed } else { idle_speed };
        let cur: u64 = self.offset;
        self.offset = if cur < target {
            if step < target - cur { cur + step } else { target }
        } else {
            if step < cur - target { cur - step } else { target }
        };
        let q: i64 = roll_delta % (TURN as i64);
        let sum: i64 = self.roll as i64 + q;
        let turned: i64 = if sum < 0 {
            sum + TURN as i64
        } else if sum >= TURN as i64 {
            sum - TURN as i64
        } else {
            sum
        };
        proof {
            let t = TURN as int;
            let sm = sum as int;
            let rl = self.roll as int;
            let dl = roll_delta as int;
            let qi = q as int;
            vstd::arithmetic::div_mod::lemma_fundamental_div_mod(dl, t);
            vstd::arithmetic::div_mod::lemma_mod_bound(dl, t);
            assert(-t < qi < t);
            assert(qi == dl % t || qi == dl % t - t);
            assert(turned as int == (rl + dl) % t) by (nonlinear_arith)
                requires
                    0 <= rl < t,
                    t == 360_000,
                    sm == rl + qi,
                    qi == dl % t || qi == dl % t - t,
                    dl == t * (dl / t) + dl % t,
                    0 <= dl % t < t,
                    turned as int == if sm < 0 { sm + t } else if sm >= t { sm - t } else { sm };
        }
        self.roll = turned as u64;
    }
}

/// An airborne wheel's compression after `n` ticks of relaxing by `step`.
pub open spec fn relaxed_n(c: int, step: int, n: nat) -> int
    decreases n,
{
    if n == 0 {
        c
    } else {
        relaxed_n(relaxed(c, step), step, (n - 1) as nat)
    }
}

/// A hit within the rest length gives the compression
/// `(rest - d) / rest` (in thousandths), which lies in `[0, SCALE]`; a hit
/// beyond it gives zero.
pub proof fn lemma_compression_of_hit(rest: int, d: int)
    requires
        rest > 0,
        d >= 0,
    ensures
        0 <= compression_of(rest, d) <= SCALE,
        d <= rest ==> compression_of(rest, d) == (rest - d) * SCALE as int / rest,
        d > rest ==> compression_of(rest, d) == 0,
{
    if d < rest {
        assert((rest - d) * 1000 <= rest * 1000) by (nonlinear_arith)
            requires d < rest, 0 <= d;
        assert(0 <= (rest - d) * 1000 / rest <= 1000) by (nonlinear_arith)
            requires (rest - d) * 1000 <= rest * 1000, d < rest, rest > 0;
    }
}

/// Without contact the compression never becomes negative, never grows,
/// and reaches zero once `n * step` covers it; with a positive step it
/// does so within `c` ticks, and stays there.
pub proof fn lemma_airborne_settles(c: int, step: int, n: nat)
    requires
        c >= 0,
        step > 0,
    ensures
        0 <= relaxed_n(c, step, n) <= c,
        relaxed_n(c, step, n + 1) <= relaxed_n(c, step, n),
        n * step >= c ==> relaxed_n(c, step, n) == 0,
        n >= c ==> relaxed_n(c, step, n) == 0,
    decreases n,
{
    if n >= c {
        assert(n * step >= c) by (nonlinear_arith)
            requires n >= c, step > 0, c >= 0;
    }
    if n > 0 {
        let c1 = relaxed(c, step);
        lemma_airborne_settles(c1, step, (n - 1) as nat);
        assert(relaxed_n(c, step, n + 1) == relaxed_n(c1, step, n));
        if n * step >= c {
            assert((n - 1) * step >= c - step) by (nonlinear_arith)
                requires n * step >= c, n >= 1;
        }
    } else {
        assert(relaxed_n(c, step, 1) == relaxed_n(relaxed(c, step), step, 0));
    }
}

/// A hit at half the rest length compresses the wheel by one half and,
/// when the compression was not already higher, pushes along the hit normal
/// with a positive force; the mesh's target offset is then half the rest
/// length.
pub proof fn lemma_half_rest_hit(
    w: Wheel,
    next: Wheel,
    normal: Vec3i,
    relax: int,
    dt: int,
    force: Vec3i,
)
    requires
        w.wf(),
        w.rest_length % 2 == 0,
        w.compression <= SCALE / 2,
        dt > 0,
        w.suspension_step(
            next,
            Probe::Hit { distance: (w.rest_length / 2) as u64, normal },
            relax,
            dt,
            force,
        ),
    ensures
        next.compression == SCALE / 2,
        next.grounded,
        ({
            let m = spring_force(
                w.stiffness as int,
                next.compression as int,
                w.damping as int,
                compression_rate(w.compression as int, next.compression as int, dt),
            );
            m > 0 && (force.x as int, force.y as int, force.z as int) == crate::geometry::scaled(
                normal,
                m,
            )
        }),
        rest_offset(next.rest_length as int, next.compression as int) == w.rest_length / 2,
{
    let l = w.rest_length as int;
    assert((l - l / 2) * 1000 / l == 500) by (nonlinear_arith)
        requires l > 0, l % 2 == 0;
    assert(l * (1000 - 500) / 1000 == l / 2) by (nonlinear_arith)
        requires l > 0, l % 2 == 0;
    let r = compression_rate(w.compression as int, 500, dt);
    assert(r >= 0) by (nonlinear_arith)
        requires
            r == (500 - w.compression as int) * 1000 / dt,
            w.compression <= 500,
            dt > 0;
    assert(w.stiffness as int * 500 > 0) by (nonlinear_arith)
        requires w.stiffness > 0;
    assert(w.damping as int * r >= 0) by (nonlinear_arith)
        requires r >= 0, w.damping >= 0;
}

/// For a fixed damping term, the suspension force does not decrease as the
/// compression grows.
pub proof fn lemma_force_monotone(stiffness: int, c1: int, c2: int, damping: int, rate: int)
    requires
        stiffness > 0,
        c1 <= c2,
    ensures
        spring_force(stiffness, c1, damping, rate) <= spring_force(stiffness, c2, damping, rate),
{
    assert(stiffness * c1 <= stiffness * c2) by (nonlinear_arith)
        requires stiffness > 0, c1 <= c2;
}

/// The four wheels of the car, the speeds of their mesh animation (most
/// millimetres a mesh moves per tick: faster on the ground than in the air)
/// and how fast an airborne wheel's compression relaxes (thousandths per
/// tick).
pub struct CarPhysics {
    pub wheels_stationary_animation_speed: u64,
    pub wheels_animation_speed: u64,
    pub compression_relax_rate: u64,
    pub wheel_infos: Vec<Wheel>,
}

/// Number of wheels of a car.
pub const WHEELS: usize = 4;

impl CarPhysics {
    pub open spec fn wf(&self) -> bool {
        &&& self.wheel_infos.len() == WHEELS
        &&& forall|i: int| 0 <= i < self.wheel_infos.len() ==> #[trigger] self.wheel_infos[i].wf()
        &&& 0 < self.wheels_stationary_animation_speed <= self.wheels_animation_speed
        &&& self.compression_relax_rate > 0
    }

    /// One suspension tick of `dt` milliseconds for all wheels: each wheel
    /// takes its own probe result; airborne wheels relax at
    /// `compression_relax_rate`; the forces come back in wheel order.
    pub fn update_car_suspension(&mut self, probes: &Vec<Probe>, dt: u64) -> (forces: Vec<Vec3i>)
        requires
            old(self).wf(),
            0 < dt <= MAX_FRAME,
            probes.len() == WHEELS,
            forall|i: int| 0 <= i < probes.len() ==> #[trigger] probes[i].wf(),
        ensures
            final(self).wf(),
            forces.len() == WHEELS,
            final(self).wheels_animation_speed == old(self).wheels_animation_speed,
            final(self).wheels_stationary_animation_speed == old(
                self,
            ).wheels_stationary_animation_speed,
            final(self).compression_relax_rate == old(self).compression_relax_rate,
            forall|i: int|
                0 <= i < WHEELS ==> #[trigger] old(self).wheel_infos[i].suspension_step(
                    final(self).wheel_infos[i],
                    probes[i],
                    old(self).compression_relax_rate as int,
                    dt as int,
                    forces[i],
                ),
    {
        let mut forces: Vec<Vec3i> = Vec::new();
        let mut i: usize = 0;
        while i < WHEELS
            invariant
                i <= WHEELS,
                old(self).wheel_infos.len() == WHEELS,
                self.wheel_infos.len() == WHEELS,
                probes.len() == WHEELS,
                forall|j: int| 0 <= j < probes.len() ==> #[trigger] probes[j].wf(),
                forall|j: int| 0 <= j < WHEELS ==> #[trigger] self.wheel_infos[j].wf(),
                forces.len() == i,
                0 < dt <= MAX_FRAME,
                self.compression_relax_rate == old(self).compression_relax_rate,
                self.compression_relax_rate > 0,
                self.wheels_animation_speed == old(self).wheels_animation_speed,
                self.wheels_stationary_animation_speed == old(self).wheels_stationary_animation_speed,
                forall|j: int| i <= j < WHEELS ==> self.wheel_infos[j] == old(self).wheel_infos[j],
                forall|j: int|
                    0 <= j < i ==> #[trigger] old(self).wheel_infos[j].suspension_step(
                        self.wheel_infos[j],
                        probes[j],
                        old(self).compression_relax_rate as int,
                        dt as int,
                        forces[j],
                    ),
            decreases WHEELS - i,
        {
            let mut w: Wheel = self.wheel_infos[i];
            let f = w.update_suspension(probes[i], self.compression_relax_rate, dt);
            self.wheel_infos.set(i, w);
            forces.push(f);
            i = i + 1;
        }
        forces
    }

    /// One animation tick for all wheel meshes; `roll_delta` is the rolling
    /// angle that the car's forward speed gives this tick.
    pub fn update_wheel_visuals(&mut self, roll_delta: i64)
        requires
            old(self).wf(),
        ensures
            final(self).wf(),
            final(self).compression_relax_rate == old(self).compression_relax_rate,
            final(self).wheels_animation_speed == old(self).wheels_animation_speed,
            final(self).wheels_stationary_animation_speed == old(
                self,
            ).wheels_stationary_animation_speed,
            forall|i: int|
                0 <= i < WHEELS ==> {
                    let (a, b) = (old(self).wheel_infos[i], #[trigger] final(self).wheel_infos[i]);
                    &&& b.offset == approached(
                        a.offset as int,
                        rest_offset(a.rest_length as int, a.compression as int),
                        if a.grounded {
                            old(self).wheels_animation_speed as int
                        } else {
                            old(self).wheels_stationary_animation_speed as int
                        },
                    )
                    &&& b.roll == (a.roll as int + roll_delta as int) % (TURN as int)
                    &&& b.compression == a.compression && b.grounded == a.grounded
                    &&& b.normal == a.normal && b.entity == a.entity
                    &&& b.rest_length == a.rest_length && b.stiffness == a.stiffness
                    &&& b.damping == a.damping
                },
    {
        let mut i: usize = 0;
        while i < WHEELS
            invariant
                i <= WHEELS,
                old(self).wheel_infos.len() == WHEELS,
                self.compression_relax_rate == old(self).compression_relax_rate,
                self.compression_relax_rate > 0,
                0 < self.wheels_stationary_animation_speed <= self.wheels_animation_speed,
                self.wheel_infos.len() == WHEELS,
                forall|j: int| 0 <= j < WHEELS ==> #[trigger] self.wheel_infos[j].wf(),
                self.wheels_animation_speed == old(self).wheels_animation_speed,
                self.wheels_stationary_animation_speed == old(self).wheels_stationary_animation_speed,
                forall|j: int| i <= j < WHEELS ==> self.wheel_infos[j] == old(self).wheel_infos[j],
                forall|j: int|
                    0 <= j < i ==> {
                        let (a, b) = (old(self).wheel_infos[j], #[trigger] self.wheel_infos[j]);
                        &&& b.offset == approached(
                            a.offset as int,
                            rest_offset(a.rest_length as int, a.compression as int),
                            if a.grounded {
                                old(self).wheels_animation_speed as int
                            } else {
                                old(self).wheels_stationary_animation_speed as int
                            },
                        )
                        &&& b.roll == (a.roll as int + roll_delta as int) % (TURN as int)
                        &&& b.compression == a.compression && b.grounded == a.grounded
                        &&& b.normal == a.normal && b.entity == a.entity
                        &&& b.rest_length == a.rest_length && b.stiffness == a.stiffness
                        &&& b.damping == a.damping
                    },
            decreases WHEELS - i,
        {
            let mut w: Wheel = self.wheel_infos[i];
            w.update_visual(self.wheels_animation_speed, self.wheels_stationary_animation_speed, roll_delta);
            self.wheel_infos.set(i, w);
            i = i + 1;
        }
    }
}

} // verus!
