//! The systems that run while a level is played.

pub mod contact;
pub mod flight;
pub mod scene;
pub mod sprite;

use crate::game::contact::{
    arbitrate, lemma_first_decisive_contact_decides, lemma_ignored_iff_all_ignored, Contact,
    Verdict,
};
use crate::game::flight::{steer, Steering, Vector3, ANGULAR_GAIN, LINEAR_GAIN};
use crate::game::scene::{DroneBody, Stage};
use crate::game::sprite::Sprite;
use crate::input::Controls;
use crate::state::{AppState, CurrentLevel, LEVEL_COUNT};
use vstd::prelude::*;

verus! {

/// Marks the player entity.
#[derive(Clone, Copy, Debug, PartialEq, Eq, Structural)]
pub struct Drone;

/// Marks the 2D world camera.
#[derive(Clone, Copy, Debug, PartialEq, Eq, Structural)]
pub struct Camera;

/// The two ends of a level.
#[derive(Clone, Copy, Debug, PartialEq, Eq, Structural)]
pub enum PodiumType {
    Start,
    Finish,
}

/// Marks a podium entity and says which end of the level it is.
#[derive(Clone, Copy, Debug, PartialEq, Eq, Structural)]
pub struct Podium(pub PodiumType);

/// The image handles of the nine drone sprites, one per thruster
/// configuration.
///
/// `H` is the asset registry's handle to an image.
#[derive(Debug)]
pub struct Materials<H> {
    pub drone: H,
    pub drone_blr: H,
    pub drone_tlr: H,
    pub drone_tr_bl: H,
    pub drone_tl_br: H,
    pub drone_blsr: H,
    pub drone_blrs: H,
    pub drone_tlsr: H,
    pub drone_tlrs: H,
}

impl<H> Materials<H> {
    /// The handle kept for `sprite`.
    pub open spec fn spec_image(self, sprite: Sprite) -> H {
        match sprite {
            Sprite::Neutral => self.drone,
            Sprite::Bl => self.drone_blr,
            Sprite::Tl => self.drone_tlr,
            Sprite::TrBlSide => self.drone_tr_bl,
            Sprite::TlBrSide => self.drone_tl_br,
            Sprite::BlStrongRight => self.drone_blsr,
            Sprite::BlRightStrong => self.drone_blrs,
            Sprite::TlStrongRight => self.drone_tlsr,
            Sprite::TlRightStrong => self.drone_tlrs,
        }
    }

    /// The handle kept for `sprite`.
    pub fn image(&self, sprite: Sprite) -> (handle: &H)
        ensures
            *handle == self.spec_image(sprite),
    {
        match sprite {
            Sprite::Neutral => &self.drone,
            Sprite::Bl => &self.drone_blr,
            Sprite::Tl => &self.drone_tlr,
            Sprite::TrBlSide => &self.drone_tr_bl,
            Sprite::TlBrSide => &self.drone_tl_br,
            Sprite::BlStrongRight => &self.drone_blsr,
            Sprite::BlRightStrong => &self.drone_blrs,
            Sprite::TlStrongRight => &self.drone_tlsr,
            Sprite::TlRightStrong => &self.drone_tlrs,
        }
    }
}

/// Prepares a level: loads the nine drone images through `load`, which
/// stands for the asset registry, and describes the drone to spawn.
///
/// Each handle of the catalogue is one that `load` gave for the path of its
/// image.
pub fn setup_game<H, F: Fn(&'static str) -> H>(load: F) -> (stage: Stage<H>)
    requires
        forall|sprite: Sprite| call_requires(load, (#[trigger] sprite.spec_path(),)),
    ensures
        forall|sprite: Sprite|
            call_ensures(load, (sprite.spec_path(),), #[trigger] stage.sprites.spec_image(sprite)),
        stage.body == DroneBody::initial(),
{
    let mat = Materials {
        drone: load(Sprite::Neutral.path()),
        drone_blr: load(Sprite::Bl.path()),
        drone_tlr: load(Sprite::Tl.path()),
        drone_tr_bl: load(Sprite::TrBlSide.path()),
        drone_tl_br: load(Sprite::TlBrSide.path()),
        drone_blsr: load(Sprite::BlStrongRight.path()),
        drone_blrs: load(Sprite::BlRightStrong.path()),
        drone_tlsr: load(Sprite::TlStrongRight.path()),
        drone_tlrs: load(Sprite::TlRightStrong.path()),
    };
    Stage { camera: Camera, drone: Drone, body: DroneBody::new(), sprites: mat }
}

/// The drone controller: turns the controls into the accelerations of the
/// drone and puts the camera over it.
///
/// `drone` and `camera` are the positions of the drone and of the camera
/// as the tick found them. Where either entity is missing the tick is a
/// no-op and nothing is to be written.
pub fn drone_movement<T>(
    controls: Controls,
    drone: Option<Vector3<T>>,
    camera: Option<Vector3<T>>,
) -> (steering: Option<Steering<T>>)
    ensures
        steering is Some <==> drone is Some && camera is Some,
        steering is Some ==> steering.unwrap() == steer(controls, drone.unwrap(), camera.unwrap()),
        steering is Some ==> {
            &&& steering.unwrap().camera.x == drone.unwrap().x
            &&& steering.unwrap().camera.y == drone.unwrap().y
            &&& steering.unwrap().camera.z == camera.unwrap().z
        },
{
    match (drone, camera) {
        (Some(drone), Some(camera)) => {
            let rotation = controls.rotation_input();
            let thrust = controls.thrust_input();
            Some(
                Steering {
                    angular: rotation * ANGULAR_GAIN,
                    thrust: Vector3 { x: 0, y: thrust * LINEAR_GAIN, z: 0 },
                    camera: Vector3 { x: drone.x, y: drone.y, z: camera.z },
                },
            )
        },
        _ => None,
    }
}

/// The handle that the drone shows once the thruster visualizer has run
/// under `controls`. What it showed before plays no part.
pub open spec fn assigned<H>(sprites: Materials<H>, controls: Controls, shown: H) -> H {
    sprites.spec_image(Sprite::for_controls(controls))
}

/// The thruster visualizer: the handle of the image that the drone must show
/// under the given controls, chosen from the controls alone.
///
/// `drone` is the marker of the drone as the tick found it. Where the world
/// has no drone the tick is a no-op and there is nothing to assign.
pub fn drone_rockets<'a, H>(
    controls: Controls,
    sprites: &'a Materials<H>,
    drone: Option<Drone>,
) -> (handle: Option<&'a H>)
    ensures
        handle is Some <==> drone is Some,
        handle is Some ==> *handle.unwrap() == sprites.spec_image(Sprite::for_controls(controls)),
{
    match drone {
        Some(_) => Some(sprites.image(Sprite::select(controls))),
        None => None,
    }
}

/// Assigning the image twice under the same controls shows the same handle
/// as assigning it once.
pub proof fn lemma_assignment_is_idempotent<H>(sprites: Materials<H>, controls: Controls, shown: H)
    ensures
        assigned(sprites, controls, assigned(sprites, controls, shown)) == assigned(
            sprites,
            controls,
            shown,
        ),
{
}

/// The outcome arbiter: goes through one tick's contact events in order and
/// acts on the first one that is not ignored.
///
/// Returns the state the application must switch to, or `None` where it stays
/// in the game; sets `current_level` to the level to play next. Events after
/// the one acted on are discarded, so a tick brings at most one transition.
pub fn detect_collisions(events: &Vec<Contact>, current_level: &mut CurrentLevel) -> (next:
    Option<AppState>)
    ensures
        next == arbitrate(events@, old(current_level)@).transition(),
        final(current_level)@ == arbitrate(events@, old(current_level)@).level_after(
            old(current_level)@,
        ),
        1 <= final(current_level)@ <= LEVEL_COUNT,
{
    let ghost level = current_level@;
    proof {
        use_type_invariant(&*current_level);
    }
    let count = events.len();
    let mut index: usize = 0;
    while index < count
        invariant
            count == events@.len(),
            index <= count,
            level == old(current_level)@,
            current_level@ == level,
            1 <= level <= LEVEL_COUNT,
            forall|i: int| 0 <= i < index ==> (#[trigger] events@[i]).verdict(level) == Verdict::Ignore,
        decreases count - index,
    {
        let verdict = events[index].judge(current_level);
        proof {
            if verdict != Verdict::Ignore {
                lemma_first_decisive_contact_decides(events@, level, index as int);
            }
        }
        match verdict {
            Verdict::Ignore => {},
            Verdict::Fail => {
                return Some(AppState::FailedMenu);
            },
            Verdict::NextLevel => {
                current_level.finish();
                return Some(AppState::SuccessMenu);
            },
            Verdict::EndCampaign => {
                current_level.finish();
                return Some(AppState::EndMenu);
            },
        }
        index = index + 1;
    }
    proof {
        lemma_ignored_iff_all_ignored(events@, level);
    }
    None
}

} // verus!
