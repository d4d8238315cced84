//! What the drone controller asks for in one tick: accelerations for the
//! drone body and a place for the camera.

use crate::input::Controls;
use vstd::prelude::*;

verus! {

/// Angular acceleration, in radians per second squared, per unit of rotation
/// input.
pub const ANGULAR_GAIN: i32 = 4;

/// Linear acceleration, in world units per second squared, per unit of thrust
/// input.
pub const LINEAR_GAIN: i32 = 400;

/// Three coordinates of the same kind.
#[derive(Debug, PartialEq)]
pub struct Vector3<T> {
    pub x: T,
    pub y: T,
    pub z: T,
}

/// What one tick of the drone controller writes.
#[derive(Debug, PartialEq)]
pub struct Steering<T> {
    /// Angular acceleration of the drone about the `+z` axis.
    pub angular: i32,
    /// Linear acceleration of the drone in its own frame; the drone's current
    /// rotation turns it into the world frame.
    pub thrust: Vector3<i32>,
    /// Where the camera goes.
    pub camera: Vector3<T>,
}

/// `rotation × ANGULAR_GAIN`, about `+z`.
pub open spec fn angular_acceleration(controls: Controls) -> int {
    controls.rotation() * ANGULAR_GAIN
}

/// `(0, thrust × LINEAR_GAIN, 0)`: thrust acts along the drone's own `+y`.
pub open spec fn body_thrust(controls: Controls) -> Vector3<i32> {
    Vector3 { x: 0, y: (controls.thrust() * LINEAR_GAIN) as i32, z: 0 }
}

/// The camera takes the drone's `x` and `y` and keeps its own `z`.
pub open spec fn follow<T>(camera: Vector3<T>, drone: Vector3<T>) -> Vector3<T> {
    Vector3 { x: drone.x, y: drone.y, z: camera.z }
}

/// One tick's steering for a drone at `drone` and a camera at `camera`.
pub open spec fn steer<T>(controls: Controls, drone: Vector3<T>, camera: Vector3<T>) -> Steering<
    T,
> {
    Steering {
        angular: angular_acceleration(controls) as i32,
        thrust: body_thrust(controls),
        camera: follow(camera, drone),
    }
}

/// The accelerations take three values each, are zero exactly when the two
/// opposing keys cancel, and never push the drone sideways in its own frame.
pub proof fn lemma_accelerations(controls: Controls)
    ensures
        angular_acceleration(controls) == -ANGULAR_GAIN || angular_acceleration(controls) == 0
            || angular_acceleration(controls) == ANGULAR_GAIN,
        body_thrust(controls).y == -LINEAR_GAIN || body_thrust(controls).y == 0 || body_thrust(
            controls,
        ).y == LINEAR_GAIN,
        angular_acceleration(controls) == 0 <==> controls.cw == controls.anti_cw,
        body_thrust(controls).y == 0 <==> controls.up == controls.down,
        body_thrust(controls).x == 0 && body_thrust(controls).z == 0,
        controls.anti_cw && !controls.cw ==> angular_acceleration(controls) > 0,
        controls.up && !controls.down ==> body_thrust(controls).y > 0,
{
}

/// After a tick the camera sits over the drone, at the height it had.
pub proof fn lemma_camera_tracks_drone<T>(controls: Controls, drone: Vector3<T>, camera: Vector3<T>)
    ensures
        steer(controls, drone, camera).camera.x == drone.x,
        steer(controls, drone, camera).camera.y == drone.y,
        steer(controls, drone, camera).camera.z == camera.z,
{
}

/// Following is idempotent: a camera that has followed the drone does not
/// move when it follows again.
pub proof fn lemma_follow_is_idempotent<T>(drone: Vector3<T>, camera: Vector3<T>)
    ensures
        follow(follow(camera, drone), drone) == follow(camera, drone),
{
}

} // verus!
