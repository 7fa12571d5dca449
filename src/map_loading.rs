use vstd::prelude::*;
use crate::geometry::Vec3i;
use crate::suspension::{CarPhysics, Wheel, WHEELS, SCALE, relaxed_n, lemma_airborne_settles};
use crate::controller::CarController;

verus! {

/// Whether the track's collider has been built.
#[derive(Clone, Copy, Debug, PartialEq, Eq, Structural)]
pub struct MapStatus {
    pub loaded: bool,
}

/// Handles of the assets whose loading is awaited.
pub struct AssetsLoading(pub Vec<u64>);

impl MapStatus {
    /// One tick of track setup: the collider is to be built on the first
    /// tick at which the track mesh is ready, and never again.
    pub fn setup_map(&mut self, mesh_ready: bool) -> (build: bool)
        ensures
            build == (!old(self).loaded && mesh_ready),
            final(self).loaded == (old(self).loaded || mesh_ready),
    {
        if !self.loaded && mesh_ready {
            self.loaded = true;
            true
        } else {
            false
        }
    }
}

/// Number of collider builds over ticks whose mesh readiness is `ready`,
/// starting from `loaded`.
pub open spec fn builds(loaded: bool, ready: Seq<bool>) -> nat
    decreases ready.len(),
{
    if ready.len() == 0 {
        0
    } else {
        (if !loaded && ready[0] { 1nat } else { 0nat }) + builds(loaded || ready[0], ready.drop_first())
    }
}

/// The track collider is built at most once, exactly once if the mesh is
/// ever ready, and never after the map has loaded.
pub proof fn lemma_map_built_once(loaded: bool, ready: Seq<bool>)
    ensures
        builds(loaded, ready) <= 1,
        loaded ==> builds(loaded, ready) == 0,
        !loaded ==> (builds(loaded, ready) == 1 <==> exists|i: int|
            0 <= i < ready.len() && #[trigger] ready[i]),
    decreases ready.len(),
{
    if ready.len() > 0 {
        let rest = ready.drop_first();
        lemma_map_built_once(loaded || ready[0], rest);
        if !loaded && !ready[0] {
            if exists|i: int| 0 <= i < ready.len() && #[trigger] ready[i] {
                let i = choose|i: int| 0 <= i < ready.len() && #[trigger] ready[i];
                assert(rest[i - 1]);
            }
            if exists|i: int| 0 <= i < rest.len() && #[trigger] rest[i] {
                let i = choose|i: int| 0 <= i < rest.len() && #[trigger] rest[i];
                assert(ready[i + 1]);
            }
        }
    }
}

/// Rest length of each wheel's spring, in millimetres.
pub const WHEEL_REST_LENGTH: u64 = 500;
/// Spring stiffness of each wheel.
pub const WHEEL_STIFFNESS: u64 = 40_000;
/// Damping coefficient of each wheel.
pub const WHEEL_DAMPING: u64 = 4_000;
/// Most a grounded wheel mesh moves per tick, in millimetres.
pub const WHEELS_ANIMATION_SPEED: u64 = 10;
/// Most an airborne wheel mesh moves per tick, in millimetres: idle
/// settling is slower than contact.
pub const WHEELS_STATIONARY_ANIMATION_SPEED: u64 = 3;
/// Compression an airborne wheel loses per tick, in thousandths: a fully
/// compressed wheel is extended after fifty ticks.
pub const COMPRESSION_RELAX_RATE: u64 = 20;
/// Mass of the car body.
pub const CAR_MASS: u64 = 2000;
/// Height of the center of mass relative to the body's origin, in millimetres.
pub const CENTER_OF_MASS_Y: i64 = -500;

/// Everything the car body is spawned with.
pub struct CarSetup {
    pub physics: CarPhysics,
    pub controller: CarController,
    pub mass: u64,
    pub center_of_mass: Vec3i,
}

impl CarSetup {
    pub open spec fn wf(&self) -> bool {
        self.physics.wf() && self.controller.wf()
    }
}

/// Registers the track mesh `track` as awaited and builds the car's
/// configuration around the four wheel meshes `wheel_entities`: fully
/// extended, airborne wheels, a controller aiming at heading zero with the
/// center of mass not yet applied.
pub fn setup_physics(loading: &mut AssetsLoading, track: u64, wheel_entities: &Vec<u64>) -> (r:
    CarSetup)
    requires
        wheel_entities.len() == WHEELS,
    ensures
        final(loading).0@ == old(loading).0@.push(track),
        r.wf(),
        r.mass == CAR_MASS,
        r.center_of_mass == (Vec3i { x: 0, y: CENTER_OF_MASS_Y, z: 0 }),
        r.physics.wheels_stationary_animation_speed == WHEELS_STATIONARY_ANIMATION_SPEED,
        r.physics.wheels_animation_speed == WHEELS_ANIMATION_SPEED,
        r.physics.compression_relax_rate == COMPRESSION_RELAX_RATE,
        forall|i: int|
            0 <= i < WHEELS ==> #[trigger] r.physics.wheel_infos[i] == (Wheel {
                entity: wheel_entities[i],
                rest_length: WHEEL_REST_LENGTH,
                stiffness: WHEEL_STIFFNESS,
                damping: WHEEL_DAMPING,
                compression: 0,
                grounded: false,
                normal: Vec3i { x: 0, y: 1000, z: 0 },
                offset: WHEEL_REST_LENGTH,
                roll: 0,
            }),
        r.controller == CarController::new_spec(500, 5000, 5000, 52_000),
{
    loading.0.push(track);
    let mut wheel_infos: Vec<Wheel> = Vec::new();
    let mut i: usize = 0;
    while i < WHEELS
        invariant
            i <= WHEELS,
            wheel_entities.len() == WHEELS,
            wheel_infos.len() == i,
            forall|j: int|
                0 <= j < i ==> #[trigger] wheel_infos[j] == (Wheel {
                    entity: wheel_entities[j],
                    rest_length: WHEEL_REST_LENGTH,
                    stiffness: WHEEL_STIFFNESS,
                    damping: WHEEL_DAMPING,
                    compression: 0,
                    grounded: false,
                    normal: Vec3i { x: 0, y: 1000, z: 0 },
                    offset: WHEEL_REST_LENGTH,
                    roll: 0,
                }),
        decreases WHEELS - i,
    {
        wheel_infos.push(
            Wheel {
                entity: wheel_entities[i],
                rest_length: WHEEL_REST_LENGTH,
                stiffness: WHEEL_STIFFNESS,
                damping: WHEEL_DAMPING,
                compression: 0,
                grounded: false,
                normal: Vec3i { x: 0, y: 1000, z: 0 },
                offset: WHEEL_REST_LENGTH,
                roll: 0,
            },
        );
        i = i + 1;
    }
    let physics = CarPhysics {
        wheels_stationary_animation_speed: WHEELS_STATIONARY_ANIMATION_SPEED,
        wheels_animation_speed: WHEELS_ANIMATION_SPEED,
        compression_relax_rate: COMPRESSION_RELAX_RATE,
        wheel_infos,
    };
    CarSetup {
        physics,
        controller: CarController::new(500, 5000, 5000, 52_000),
        mass: CAR_MASS,
        center_of_mass: Vec3i { x: 0, y: CENTER_OF_MASS_Y, z: 0 },
    }
}

/// A wheel of the car that `setup_physics` builds, whatever its
/// compression, is fully extended after fifty ticks without contact, and
/// stays so; its compression never grows nor goes negative on the way.
pub proof fn lemma_setup_wheels_settle(c: int, n: nat)
    requires
        0 <= c <= SCALE,
    ensures
        0 <= relaxed_n(c, COMPRESSION_RELAX_RATE as int, n) <= c,
        relaxed_n(c, COMPRESSION_RELAX_RATE as int, n + 1) <= relaxed_n(
            c,
            COMPRESSION_RELAX_RATE as int,
            n,
        ),
        n >= 50 ==> relaxed_n(c, COMPRESSION_RELAX_RATE as int, n) == 0,
{
    lemma_airborne_settles(c, COMPRESSION_RELAX_RATE as int, n);
    if n >= 50 {
        assert(n * 20 >= c) by (nonlinear_arith)
            requires n >= 50, c <= 1000;
    }
}

} // verus!
