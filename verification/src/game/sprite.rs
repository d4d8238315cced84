//! The nine drone images and the rule that picks one from the controls.

use crate::input::Controls;
use vstd::prelude::*;

verus! {

/// The nine thruster configurations the drone can show.
///
/// `Bl` shows flames at the bottom-left thrusters (thrust upwards), `Tl` at
/// the top-left ones (thrust downwards); `TrBlSide` and `TlBrSide` show the
/// opposing side thrusters of a pure rotation; the four "strong" variants
/// show a vertical thrust together with a rotation.
#[derive(Clone, Copy, Debug, PartialEq, Eq, Structural)]
pub enum Sprite {
    Neutral,
    Bl,
    Tl,
    TrBlSide,
    TlBrSide,
    BlStrongRight,
    BlRightStrong,
    TlStrongRight,
    TlRightStrong,
}

impl Sprite {
    /// The image for the given controls: the first row that matches, from
    /// the top,
    ///
    /// | keys held        | image           |
    /// |------------------|-----------------|
    /// | up and cw        | `BlStrongRight` |
    /// | up and anti_cw   | `BlRightStrong` |
    /// | down and cw      | `TlRightStrong` |
    /// | down and anti_cw | `TlStrongRight` |
    /// | up               | `Bl`            |
    /// | down             | `Tl`            |
    /// | cw               | `TrBlSide`      |
    /// | anti_cw          | `TlBrSide`      |
    /// | none of these    | `Neutral`       |
    pub open spec fn for_controls(controls: Controls) -> Sprite {
        if controls.up && controls.cw {
            Sprite::BlStrongRight
        } else if controls.up && controls.anti_cw {
            Sprite::BlRightStrong
        } else if controls.down && controls.cw {
            Sprite::TlRightStrong
        } else if controls.down && controls.anti_cw {
            Sprite::TlStrongRight
        } else if controls.up {
            Sprite::Bl
        } else if controls.down {
            Sprite::Tl
        } else if controls.cw {
            Sprite::TrBlSide
        } else if controls.anti_cw {
            Sprite::TlBrSide
        } else {
            Sprite::Neutral
        }
    }

    /// Computes [`Sprite::for_controls`].
    pub fn select(controls: Controls) -> (sprite: Sprite)
        ensures
            sprite == Sprite::for_controls(controls),
    {
        let turning = controls.cw || controls.anti_cw;
        if controls.up && turning {
            if controls.cw {
                Sprite::BlStrongRight
            } else {
                Sprite::BlRightStrong
            }
        } else if controls.down && turning {
            if controls.cw {
                Sprite::TlRightStrong
            } else {
                Sprite::TlStrongRight
            }
        } else if controls.up {
            Sprite::Bl
        } else if controls.down {
            Sprite::Tl
        } else if controls.cw {
            Sprite::TrBlSide
        } else if controls.anti_cw {
            Sprite::TlBrSide
        } else {
            Sprite::Neutral
        }
    }

    /// The asset path of the image.
    pub open spec fn spec_path(self) -> &'static str {
        match self {
            Sprite::Neutral => "sprites/drone.png",
            Sprite::Bl => "sprites/drone_blr.png",
            Sprite::Tl => "sprites/drone_tlr.png",
            Sprite::TrBlSide => "sprites/drone_tr_bl.png",
            Sprite::TlBrSide => "sprites/drone_tl_br.png",
            Sprite::BlStrongRight => "sprites/drone_blsr.png",
            Sprite::BlRightStrong => "sprites/drone_blrs.png",
            Sprite::TlStrongRight => "sprites/drone_tlsr.png",
            Sprite::TlRightStrong => "sprites/drone_tlrs.png",
        }
    }

    /// The asset path of the image.
    #[verifier::when_used_as_spec(spec_path)]
    pub fn path(self) -> (path: &'static str)
        ensures
            path == self.spec_path(),
    {
        match self {
            Sprite::Neutral => "sprites/drone.png",
            Sprite::Bl => "sprites/drone_blr.png",
            Sprite::Tl => "sprites/drone_tlr.png",
            Sprite::TrBlSide => "sprites/drone_tr_bl.png",
            Sprite::TlBrSide => "sprites/drone_tl_br.png",
            Sprite::BlStrongRight => "sprites/drone_blsr.png",
            Sprite::BlRightStrong => "sprites/drone_blrs.png",
            Sprite::TlStrongRight => "sprites/drone_tlsr.png",
            Sprite::TlRightStrong => "sprites/drone_tlrs.png",
        }
    }
}

/// The image is a function of the four controls alone: equal controls give
/// the same image.
pub proof fn lemma_equal_controls_equal_sprite(a: Controls, b: Controls)
    requires
        a.up == b.up,
        a.down == b.down,
        a.cw == b.cw,
        a.anti_cw == b.anti_cw,
    ensures
        Sprite::for_controls(a) == Sprite::for_controls(b),
{
}

/// For each image, exactly the controls that select it.
///
/// A vertical key together with a rotation key gives a "strong" image; where
/// opposing keys are held together, `up` wins over `down` and `cw` over
/// `anti_cw`.
pub proof fn lemma_sprite_conditions(c: Controls)
    ensures
        Sprite::for_controls(c) == Sprite::BlStrongRight <==> c.up && c.cw,
        Sprite::for_controls(c) == Sprite::BlRightStrong <==> c.up && !c.cw && c.anti_cw,
        Sprite::for_controls(c) == Sprite::TlRightStrong <==> !c.up && c.down && c.cw,
        Sprite::for_controls(c) == Sprite::TlStrongRight <==> !c.up && c.down && !c.cw && c.anti_cw,
        Sprite::for_controls(c) == Sprite::Bl <==> c.up && !c.cw && !c.anti_cw,
        Sprite::for_controls(c) == Sprite::Tl <==> !c.up && c.down && !c.cw && !c.anti_cw,
        Sprite::for_controls(c) == Sprite::TrBlSide <==> !c.up && !c.down && c.cw,
        Sprite::for_controls(c) == Sprite::TlBrSide <==> !c.up && !c.down && !c.cw && c.anti_cw,
        Sprite::for_controls(c) == Sprite::Neutral <==> !c.up && !c.down && !c.cw && !c.anti_cw,
{
}

} // verus!
