use car_physics::car_camera::{camera_follow, CameraFollow, CameraPose, CarPose};
use car_physics::controller::{align_step, wrap_angle, CarController};
use car_physics::geometry::Vec3i;
use car_physics::map_loading::{setup_physics, AssetsLoading, MapStatus};
use car_physics::suspension::{ground_probe, CarPhysics, ConfigError, Probe, Wheel};

fn up() -> Vec3i {
    Vec3i::new(0, 1000, 0)
}

fn wheel() -> Wheel {
    Wheel::new(7, 500, 40_000, 4_000).unwrap()
}

fn car() -> CarPhysics {
    let mut loading = AssetsLoading(Vec::new());
    setup_physics(&mut loading, 1, &vec![10, 11, 12, 13]).physics
}

#[test]
fn half_rest_length_hit_compresses_half() {
    let mut w = wheel();
    let f = w.update_suspension(Probe::Hit { distance: 250, normal: up() }, 10, 1000);
    assert_eq!(w.compression, 500);
    assert!(w.grounded);
    // stiffness * compression + damping * (500 - 0) per second
    assert_eq!(f, Vec3i::new(0, 1000 * (40_000 * 500 + 4_000 * 500), 0));
    assert!(f.y > 0);
    let before = w.offset;
    w.update_visual(1000, 1000, 0);
    assert_eq!(before, 500);
    assert_eq!(w.offset, 250);
}

#[test]
fn visual_offset_moves_at_most_the_animation_speed() {
    let mut w = wheel();
    w.update_suspension(Probe::Hit { distance: 0, normal: up() }, 10, 16);
    w.update_visual(10, 3, 0);
    assert_eq!(w.offset, 490);
    let mut air = wheel();
    air.offset = 100;
    air.update_visual(10, 3, 0);
    assert_eq!(air.offset, 103);
}

#[test]
fn compression_at_the_edges() {
    let mut w = wheel();
    w.update_suspension(Probe::Hit { distance: 0, normal: up() }, 10, 16);
    assert_eq!(w.compression, 1000);
    w.update_suspension(Probe::Hit { distance: 500, normal: up() }, 10, 16);
    assert_eq!(w.compression, 0);
    w.update_suspension(Probe::Hit { distance: 900, normal: up() }, 10, 16);
    assert_eq!(w.compression, 0);
    w.update_suspension(Probe::Hit { distance: 125, normal: up() }, 10, 16);
    assert_eq!(w.compression, 750);
}

#[test]
fn force_follows_the_hit_normal() {
    let mut w = wheel();
    let n = Vec3i::new(600, 800, 0);
    let f = w.update_suspension(Probe::Hit { distance: 400, normal: n }, 10, 1000);
    let m: i64 = 40_000 * 200 + 4_000 * 200;
    assert_eq!(f, Vec3i::new(600 * m, 800 * m, 0));
    assert_eq!(w.normal, n);
}

#[test]
fn force_grows_with_compression() {
    let mut a = wheel();
    let mut b = wheel();
    let fa = a.update_suspension(Probe::Hit { distance: 400, normal: up() }, 10, 16);
    let fb = b.update_suspension(Probe::Hit { distance: 300, normal: up() }, 10, 16);
    assert!(fa.y < fb.y);
}

#[test]
fn airborne_wheel_relaxes_and_never_goes_negative() {
    let mut w = wheel();
    w.update_suspension(Probe::Hit { distance: 0, normal: up() }, 10, 16);
    let f = w.update_suspension(Probe::NoHit, 300, 16);
    assert_eq!(f, Vec3i::zero());
    assert_eq!(w.compression, 700);
    assert!(!w.grounded);
    w.update_suspension(Probe::NoHit, 300, 16);
    w.update_suspension(Probe::NoHit, 300, 16);
    assert_eq!(w.compression, 100);
    w.update_suspension(Probe::NoHit, 300, 16);
    assert_eq!(w.compression, 0);
}

#[test]
fn sixty_ticks_without_contact_settle_all_wheels() {
    let mut c = car();
    let hits = vec![Probe::Hit { distance: 0, normal: up() }; 4];
    c.update_car_suspension(&hits, 16);
    assert!(c.wheel_infos.iter().all(|w| w.grounded && w.compression == 1000));
    let none = vec![Probe::NoHit; 4];
    for _ in 0..60 {
        let forces = c.update_car_suspension(&none, 16);
        assert_eq!(forces, vec![Vec3i::zero(); 4]);
    }
    assert!(c.wheel_infos.iter().all(|w| !w.grounded && w.compression == 0));
}

#[test]
fn only_wheel_zero_touches() {
    let mut c = car();
    let probes = vec![
        Probe::Hit { distance: 250, normal: up() },
        Probe::NoHit,
        Probe::NoHit,
        Probe::NoHit,
    ];
    let forces = c.update_car_suspension(&probes, 16);
    assert_eq!(c.wheel_infos[0].compression, 500);
    assert!(forces[0].y > 0);
    assert!(c.wheel_infos[0].grounded);
    assert!(!c.wheel_infos[1].grounded);
    c.update_wheel_visuals(0);
    assert_eq!(c.wheel_infos[0].offset, 490);
    assert_eq!(c.wheel_infos[1].offset, 500);
}

#[test]
fn wheels_roll_with_speed() {
    let mut c = car();
    c.update_wheel_visuals(-1000);
    assert_eq!(c.wheel_infos[2].roll, 359_000);
    c.update_wheel_visuals(3000);
    assert_eq!(c.wheel_infos[2].roll, 2000);
    c.update_wheel_visuals(725_000);
    assert_eq!(c.wheel_infos[2].roll, 7000);
    c.update_wheel_visuals(-725_000);
    assert_eq!(c.wheel_infos[2].roll, 2000);
}

#[test]
fn wheel_configuration_is_checked() {
    assert_eq!(Wheel::new(0, 0, 1, 1), Err(ConfigError::RestLength));
    assert_eq!(Wheel::new(0, 2_000_000, 1, 1), Err(ConfigError::RestLength));
    assert_eq!(Wheel::new(0, 500, 0, 1), Err(ConfigError::Stiffness));
    assert_eq!(Wheel::new(0, 500, 1, 2_000_000), Err(ConfigError::Damping));
    assert!(Wheel::new(0, 500, 1, 0).is_ok());
}

#[test]
fn probe_beyond_reach_is_no_contact() {
    assert_eq!(ground_probe(None, 800), Probe::NoHit);
    assert_eq!(ground_probe(Some((801, up())), 800), Probe::NoHit);
    assert_eq!(
        ground_probe(Some((800, up())), 800),
        Probe::Hit { distance: 800, normal: up() }
    );
}

#[test]
fn throttle_pushes_forward_and_keeps_target() {
    let mut ctl = CarController::new(500, 5000, 5000, 52_000);
    let mut heading: u64 = 0;
    for _ in 0..10 {
        let out = ctl.car_controls(1000, 0, heading, 16);
        assert_eq!(out.force, 5000);
        heading = out.heading;
    }
    assert_eq!(ctl.rotate_to_rotation, 0);
    assert_eq!(heading, 0);
    assert!(!ctl.rotated_last_frame);
    let back = ctl.car_controls(-500, 0, heading, 16);
    assert_eq!(back.force, -2500);
}

#[test]
fn steer_sets_target_once_then_holds() {
    let mut ctl = CarController::new(500, 5000, 5000, 52_000);
    let out = ctl.car_controls(0, 1000, 0, 100);
    assert_eq!(ctl.rotate_to_rotation, 52_000);
    assert!(ctl.rotated_last_frame);
    // slerp by 5 per second over 100 ms: half of the remaining turn
    assert_eq!(out.heading, 26_000);
    let mut heading = out.heading;
    for _ in 0..10 {
        let out = ctl.car_controls(0, 0, heading, 100);
        assert_eq!(ctl.rotate_to_rotation, 52_000);
        let remaining = 52_000 - heading;
        assert!(out.heading >= heading && out.heading <= 52_000);
        assert_eq!(out.heading - heading, remaining / 2);
        heading = out.heading;
    }
    assert!(heading < 52_000 && heading > 51_900);
}

#[test]
fn left_steer_wraps_around() {
    let mut ctl = CarController::new(500, 5000, 5000, 52_000);
    ctl.car_controls(0, -1000, 10_000, 100);
    assert_eq!(ctl.rotate_to_rotation, 318_000);
    for _ in 0..100 {
        ctl.car_controls(0, -1000, 0, 100);
        assert!(ctl.rotate_to_rotation < 360_000);
    }
}

#[test]
fn center_of_mass_is_applied_once() {
    let mut ctl = CarController::new(500, 5000, 5000, 52_000);
    let applied: Vec<bool> =
        (0..5).map(|_| ctl.car_controls(0, 0, 0, 16).apply_center_of_mass).collect();
    assert_eq!(applied, vec![true, false, false, false, false]);
    assert!(ctl.center_of_mass_altered);
}

#[test]
fn alignment_takes_the_short_way() {
    assert_eq!(align_step(350_000, 10_000, 500), 0);
    assert_eq!(align_step(10_000, 350_000, 500), 0);
    assert_eq!(align_step(340_000, 10_000, 250), 347_500);
    assert_eq!(align_step(10_000, 12_000, 1000), 12_000);
    assert_eq!(align_step(12_000, 12_000, 500), 12_000);
    assert_eq!(align_step(0, 1, 500), 0);
    assert_eq!(wrap_angle(-1), 359_999);
    assert_eq!(wrap_angle(360_000), 0);
}

fn rig() -> CameraFollow {
    CameraFollow { camera_translation_speed: 1000, distance_behind: 1, offset: Vec3i::new(0, 10_000, 15_000) }
}

fn fresh_camera() -> CameraPose {
    CameraPose { position: Vec3i::new(-90_000, 500_000, 90_000), look_at: Vec3i::zero(), view_heading: 0 }
}

#[test]
fn camera_follows_car_at_origin() {
    let mut cam = fresh_camera();
    camera_follow(&rig(), &mut cam, Some(CarPose { position: Vec3i::zero(), heading: 0 }));
    assert_eq!(cam.position, Vec3i::new(0, 10_000, 15_000));
    assert_eq!(cam.look_at, Vec3i::zero());
    assert_eq!(cam.view_heading, 0);
}

#[test]
fn camera_follows_moved_car() {
    let mut cam = fresh_camera();
    let p = Vec3i::new(100_000, 5_000, -50_000);
    camera_follow(&rig(), &mut cam, Some(CarPose { position: p, heading: 0 }));
    assert_eq!(cam.position, Vec3i::new(100_000, 15_000, -35_000));
    assert_eq!(cam.look_at, p);
}

#[test]
fn camera_tracks_rotated_car_forward() {
    let mut cam = fresh_camera();
    camera_follow(&rig(), &mut cam, Some(CarPose { position: Vec3i::zero(), heading: 90_000 }));
    assert_eq!(cam.view_heading, 90_000);
}

#[test]
fn camera_holds_without_car() {
    let mut cam = fresh_camera();
    camera_follow(&rig(), &mut cam, None);
    assert_eq!(cam, fresh_camera());
}

#[test]
fn map_collider_is_built_once() {
    let mut status = MapStatus { loaded: false };
    assert!(!status.setup_map(false));
    assert!(!status.loaded);
    assert!(status.setup_map(true));
    assert!(status.loaded);
    assert!(!status.setup_map(true));
}

#[test]
fn setup_registers_track_and_wheels() {
    let mut loading = AssetsLoading(vec![3]);
    let setup = setup_physics(&mut loading, 9, &vec![10, 11, 12, 13]);
    assert_eq!(loading.0, vec![3, 9]);
    assert_eq!(setup.physics.wheel_infos.len(), 4);
    assert_eq!(setup.physics.wheel_infos[3].entity, 13);
    assert!(!setup.controller.center_of_mass_altered);
    assert_eq!(setup.center_of_mass, Vec3i::new(0, -500, 0));
    assert_eq!(setup.mass, 2000);
    assert!(setup.physics.wheels_animation_speed > setup.physics.wheels_stationary_animation_speed);
    assert!(setup.physics.wheels_stationary_animation_speed > 0);
    assert!(setup.physics.compression_relax_rate > 0);
}
