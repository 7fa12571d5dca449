use vstd::prelude::*;
use crate::geometry::Vec3i;

verus! {

/// The follow camera's rig: where it sits relative to the car.
#[derive(Clone, Copy, Debug, PartialEq, Eq, Structural)]
pub struct CameraFollow {
    pub camera_translation_speed: u64,
    pub distance_behind: u64,
    /// Offset from the car's position to the camera (behind and above).
    pub offset: Vec3i,
}

/// Where the car is and which way it faces (heading in millidegrees).
#[derive(Clone, Copy, Debug, PartialEq, Eq, Structural)]
pub struct CarPose {
    pub position: Vec3i,
    pub heading: u64,
}

/// The camera's transform: its position, the point its view is aimed at,
/// and the heading (millidegrees) its view faces about the vertical axis.
#[derive(Clone, Copy, Debug, PartialEq, Eq, Structural)]
pub struct CameraPose {
    pub position: Vec3i,
    pub look_at: Vec3i,
    pub view_heading: u64,
}

/// Moves the camera to the car's position plus the rig's offset and aims
/// it at the car, facing along the car's forward axis: a turned car turns
/// the view with it. Without a car (not spawned yet) the camera keeps its
/// transform.
pub fn camera_follow(rig: &CameraFollow, camera: &mut CameraPose, car: Option<CarPose>)
    requires
        rig.offset.is_position(),
        car matches Some(c) ==> c.position.is_position(),
    ensures
        match car {
            Some(c) => {
                &&& final(camera).position.x == c.position.x + rig.offset.x
                &&& final(camera).position.y == c.position.y + rig.offset.y
                &&& final(camera).position.z == c.position.z + rig.offset.z
                &&& final(camera).look_at == c.position
                &&& final(camera).view_heading == c.heading
            },
            None => *final(camera) == *old(camera),
        },
{
    if let Some(c) = car {
        camera.position = c.position.add(&rig.offset);
        camera.look_at = c.position;
        camera.view_heading = c.heading;
    }
}

} // verus!
