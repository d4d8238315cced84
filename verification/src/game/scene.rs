//! What a level starts from: the drone body and the markers to attach.

use crate::game::flight::Vector3;
use crate::game::sprite::Sprite;
use crate::game::{Camera, Drone, Materials};
use vstd::prelude::*;

verus! {

/// How a rigid body takes part in the physics simulation.
#[derive(Clone, Copy, Debug, PartialEq, Eq, Structural)]
pub enum BodyMode {
    /// Moved by forces and contacts.
    Dynamic,
    /// Never moves.
    Static,
}

/// The physical set-up of the drone at the start of a level, in world units.
#[derive(Debug, PartialEq)]
pub struct DroneBody {
    pub mode: BodyMode,
    pub position: Vector3<i32>,
    /// Half-extents of the cuboid collision shape.
    pub half_extents: Vector3<i32>,
    /// Radius by which the cuboid's border is rounded, if it is.
    pub border_radius: Option<u32>,
    pub linear_velocity: Vector3<i32>,
    pub linear_acceleration: Vector3<i32>,
    /// The image the drone shows before the first tick.
    pub sprite: Sprite,
}

impl DroneBody {
    /// A dynamic body at `(0, 20, 0)`, at rest, in a sharp-edged cuboid with
    /// half-extents `(30, 14, 0)`, showing the neutral image.
    pub open spec fn initial() -> DroneBody {
        DroneBody {
            mode: BodyMode::Dynamic,
            position: Vector3 { x: 0, y: 20, z: 0 },
            half_extents: Vector3 { x: 30, y: 14, z: 0 },
            border_radius: None,
            linear_velocity: Vector3 { x: 0, y: 0, z: 0 },
            linear_acceleration: Vector3 { x: 0, y: 0, z: 0 },
            sprite: Sprite::Neutral,
        }
    }

    /// Builds [`DroneBody::initial`].
    pub fn new() -> (body: DroneBody)
        ensures
            body == DroneBody::initial(),
    {
        DroneBody {
            mode: BodyMode::Dynamic,
            position: Vector3 { x: 0, y: 20, z: 0 },
            half_extents: Vector3 { x: 30, y: 14, z: 0 },
            border_radius: None,
            linear_velocity: Vector3 { x: 0, y: 0, z: 0 },
            linear_acceleration: Vector3 { x: 0, y: 0, z: 0 },
            sprite: Sprite::Neutral,
        }
    }
}

/// Everything that entering the game sets up: one camera, one drone and the
/// sprite catalogue.
#[derive(Debug)]
pub struct Stage<H> {
    /// Marker of the one world camera.
    pub camera: Camera,
    /// Marker of the one drone.
    pub drone: Drone,
    pub body: DroneBody,
    pub sprites: Materials<H>,
}

} // verus!
