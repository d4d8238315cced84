use drone_core::game::scene::{BodyMode, DroneBody};
use drone_core::game::sprite::Sprite;
use drone_core::game::flight::Vector3;
use drone_core::game::{drone_rockets, setup_game, Camera, Drone, Materials};
use drone_core::input::Controls;

fn keys(up: bool, down: bool, cw: bool, anti_cw: bool) -> Controls {
    Controls { up, down, cw, anti_cw }
}

fn catalogue() -> Materials<String> {
    setup_game(|path| path.to_string()).sprites
}

fn shown(controls: Controls) -> String {
    let sprites = catalogue();
    let handle = drone_rockets(controls, &sprites, Some(Drone)).unwrap();
    handle.clone()
}

#[test]
fn idle_shows_the_neutral_image() {
    assert_eq!(Sprite::select(keys(false, false, false, false)), Sprite::Neutral);
    assert_eq!(shown(keys(false, false, false, false)), "sprites/drone.png");
}

#[test]
fn upthrust_shows_the_bottom_flames() {
    assert_eq!(Sprite::select(keys(true, false, false, false)), Sprite::Bl);
    assert_eq!(shown(keys(true, false, false, false)), "sprites/drone_blr.png");
}

#[test]
fn upthrust_with_clockwise_shows_the_strong_right_image() {
    assert_eq!(Sprite::select(keys(true, false, true, false)), Sprite::BlStrongRight);
    assert_eq!(shown(keys(true, false, true, false)), "sprites/drone_blsr.png");
}

#[test]
fn every_row_of_the_priority_table() {
    assert_eq!(shown(keys(true, false, true, false)), "sprites/drone_blsr.png");
    assert_eq!(shown(keys(true, false, false, true)), "sprites/drone_blrs.png");
    assert_eq!(shown(keys(false, true, true, false)), "sprites/drone_tlrs.png");
    assert_eq!(shown(keys(false, true, false, true)), "sprites/drone_tlsr.png");
    assert_eq!(shown(keys(true, false, false, false)), "sprites/drone_blr.png");
    assert_eq!(shown(keys(false, true, false, false)), "sprites/drone_tlr.png");
    assert_eq!(shown(keys(false, false, true, false)), "sprites/drone_tr_bl.png");
    assert_eq!(shown(keys(false, false, false, true)), "sprites/drone_tl_br.png");
    assert_eq!(shown(keys(false, false, false, false)), "sprites/drone.png");
}

#[test]
fn earlier_rows_win_when_opposing_keys_are_held() {
    assert_eq!(Sprite::select(keys(true, true, false, false)), Sprite::Bl);
    assert_eq!(Sprite::select(keys(false, false, true, true)), Sprite::TrBlSide);
    assert_eq!(Sprite::select(keys(true, true, true, false)), Sprite::BlStrongRight);
    assert_eq!(Sprite::select(keys(true, true, false, true)), Sprite::BlRightStrong);
    assert_eq!(Sprite::select(keys(true, false, true, true)), Sprite::BlStrongRight);
    assert_eq!(Sprite::select(keys(false, true, true, true)), Sprite::TlRightStrong);
    assert_eq!(Sprite::select(keys(true, true, true, true)), Sprite::BlStrongRight);
}

#[test]
fn selection_follows_the_cascade_for_all_sixteen_inputs() {
    for bits in 0..16u8 {
        let c = keys(bits & 1 != 0, bits & 2 != 0, bits & 4 != 0, bits & 8 != 0);
        let expected = if c.up && c.cw {
            Sprite::BlStrongRight
        } else if c.up && c.anti_cw {
            Sprite::BlRightStrong
        } else if c.down && c.cw {
            Sprite::TlRightStrong
        } else if c.down && c.anti_cw {
            Sprite::TlStrongRight
        } else if c.up {
            Sprite::Bl
        } else if c.down {
            Sprite::Tl
        } else if c.cw {
            Sprite::TrBlSide
        } else if c.anti_cw {
            Sprite::TlBrSide
        } else {
            Sprite::Neutral
        };
        assert_eq!(Sprite::select(c), expected);
    }
}

#[test]
fn equal_controls_give_the_same_image() {
    for bits in 0..16u8 {
        let a = keys(bits & 1 != 0, bits & 2 != 0, bits & 4 != 0, bits & 8 != 0);
        let b = keys(bits & 1 != 0, bits & 2 != 0, bits & 4 != 0, bits & 8 != 0);
        assert_eq!(Sprite::select(a), Sprite::select(b));
        assert_eq!(shown(a), shown(b));
    }
}

#[test]
fn assigning_twice_gives_the_same_handle() {
    let sprites = setup_game(|path| path.len()).sprites;
    let c = keys(false, true, false, true);
    let first = *drone_rockets(c, &sprites, Some(Drone)).unwrap();
    let second = *drone_rockets(c, &sprites, Some(Drone)).unwrap();
    assert_eq!(first, second);
    assert_eq!(first, "sprites/drone_tlsr.png".len());
}

#[test]
fn nothing_to_assign_without_a_drone() {
    let sprites = catalogue();
    assert_eq!(drone_rockets(keys(true, false, false, false), &sprites, None), None);
}

#[test]
fn the_nine_asset_paths() {
    assert_eq!(Sprite::Neutral.path(), "sprites/drone.png");
    assert_eq!(Sprite::Bl.path(), "sprites/drone_blr.png");
    assert_eq!(Sprite::Tl.path(), "sprites/drone_tlr.png");
    assert_eq!(Sprite::TrBlSide.path(), "sprites/drone_tr_bl.png");
    assert_eq!(Sprite::TlBrSide.path(), "sprites/drone_tl_br.png");
    assert_eq!(Sprite::BlStrongRight.path(), "sprites/drone_blsr.png");
    assert_eq!(Sprite::BlRightStrong.path(), "sprites/drone_blrs.png");
    assert_eq!(Sprite::TlStrongRight.path(), "sprites/drone_tlsr.png");
    assert_eq!(Sprite::TlRightStrong.path(), "sprites/drone_tlrs.png");
}

#[test]
fn the_catalogue_holds_what_was_loaded_for_each_path() {
    let sprites = setup_game(|path| format!("handle of {}", path)).sprites;
    assert_eq!(sprites.drone, "handle of sprites/drone.png");
    assert_eq!(sprites.drone_blr, "handle of sprites/drone_blr.png");
    assert_eq!(sprites.drone_tlr, "handle of sprites/drone_tlr.png");
    assert_eq!(sprites.drone_tr_bl, "handle of sprites/drone_tr_bl.png");
    assert_eq!(sprites.drone_tl_br, "handle of sprites/drone_tl_br.png");
    assert_eq!(sprites.drone_blsr, "handle of sprites/drone_blsr.png");
    assert_eq!(sprites.drone_blrs, "handle of sprites/drone_blrs.png");
    assert_eq!(sprites.drone_tlsr, "handle of sprites/drone_tlsr.png");
    assert_eq!(sprites.drone_tlrs, "handle of sprites/drone_tlrs.png");
}

#[test]
fn image_looks_each_sprite_up_in_its_own_field() {
    let sprites = Materials {
        drone: 0u8,
        drone_blr: 1,
        drone_tlr: 2,
        drone_tr_bl: 3,
        drone_tl_br: 4,
        drone_blsr: 5,
        drone_blrs: 6,
        drone_tlsr: 7,
        drone_tlrs: 8,
    };
    assert_eq!(*sprites.image(Sprite::Neutral), 0);
    assert_eq!(*sprites.image(Sprite::Bl), 1);
    assert_eq!(*sprites.image(Sprite::Tl), 2);
    assert_eq!(*sprites.image(Sprite::TrBlSide), 3);
    assert_eq!(*sprites.image(Sprite::TlBrSide), 4);
    assert_eq!(*sprites.image(Sprite::BlStrongRight), 5);
    assert_eq!(*sprites.image(Sprite::BlRightStrong), 6);
    assert_eq!(*sprites.image(Sprite::TlStrongRight), 7);
    assert_eq!(*sprites.image(Sprite::TlRightStrong), 8);
}

#[test]
fn the_drone_starts_at_rest_above_the_origin() {
    let stage = setup_game(|path| path);
    assert_eq!(stage.camera, Camera);
    assert_eq!(stage.drone, Drone);
    assert_eq!(stage.body, DroneBody::new());
    assert_eq!(stage.body.mode, BodyMode::Dynamic);
    assert_eq!(stage.body.position, Vector3 { x: 0, y: 20, z: 0 });
    assert_eq!(stage.body.half_extents, Vector3 { x: 30, y: 14, z: 0 });
    assert_eq!(stage.body.border_radius, None);
    assert_eq!(stage.body.linear_velocity, Vector3 { x: 0, y: 0, z: 0 });
    assert_eq!(stage.body.linear_acceleration, Vector3 { x: 0, y: 0, z: 0 });
    assert_eq!(stage.body.sprite, Sprite::Neutral);
}
