use drone_core::menus::failed::{click, setup, MenuButton};
use drone_core::menus::{Interaction, FONT};
use drone_core::state::{Signal, TransitionError};
use drone_core::AppState;

#[test]
fn the_menu_font() {
    assert_eq!(FONT, "fonts/FiraSans-Bold.ttf");
}

#[test]
fn the_failed_menu_layout() {
    let menu = setup();
    assert_eq!(menu.title.text, "Failed");
    assert_eq!(menu.title.font, "fonts/FiraSans-Bold.ttf");
    assert_eq!(menu.title.font_size, 100);
    assert_eq!(menu.buttons.len(), 2);
    assert_eq!(menu.buttons[0].button, MenuButton::Retry);
    assert_eq!(menu.buttons[0].caption.text, "Retry");
    assert_eq!(menu.buttons[1].button, MenuButton::Return);
    assert_eq!(menu.buttons[1].caption.text, "Return to main menu");
    for plan in &menu.buttons {
        assert_eq!(plan.caption.font, "fonts/FiraSans-Bold.ttf");
        assert_eq!(plan.caption.font_size, 40);
        assert_eq!(plan.width, 350);
        assert_eq!(plan.height, 65);
        assert_eq!(plan.margin_top, 4);
    }
}

#[test]
fn retry_leads_back_into_the_game() {
    assert_eq!(MenuButton::Retry.target(), AppState::Game);
    assert_eq!(AppState::FailedMenu.next(Signal::Retry), Some(MenuButton::Retry.target()));
    let input = vec![(Interaction::Clicked, MenuButton::Retry), (Interaction::Idle, MenuButton::Return)];
    assert_eq!(click(&input), Ok(Some(AppState::Game)));
}

#[test]
fn return_leads_to_the_main_menu() {
    assert_eq!(MenuButton::Return.target(), AppState::MainMenu);
    assert_eq!(AppState::FailedMenu.next(Signal::Return), Some(MenuButton::Return.target()));
    let input = vec![(Interaction::Hovered, MenuButton::Retry), (Interaction::Clicked, MenuButton::Return)];
    assert_eq!(click(&input), Ok(Some(AppState::MainMenu)));
}

#[test]
fn without_a_click_nothing_happens() {
    assert_eq!(click(&vec![]), Ok(None));
    let input = vec![(Interaction::Hovered, MenuButton::Retry), (Interaction::Idle, MenuButton::Return)];
    assert_eq!(click(&input), Ok(None));
}

#[test]
fn two_clicks_in_one_frame_are_refused() {
    let input = vec![(Interaction::Clicked, MenuButton::Retry), (Interaction::Clicked, MenuButton::Return)];
    assert_eq!(click(&input), Err(TransitionError::AlreadyQueued));
    let input = vec![
        (Interaction::Clicked, MenuButton::Return),
        (Interaction::Idle, MenuButton::Retry),
        (Interaction::Clicked, MenuButton::Return),
    ];
    assert_eq!(click(&input), Err(TransitionError::AlreadyQueued));
}
