use drone_core::state::{Signal, LEVEL_COUNT};
use drone_core::{AppState, CurrentLevel};

const STATES: [AppState; 5] = [
    AppState::MainMenu,
    AppState::Game,
    AppState::SuccessMenu,
    AppState::FailedMenu,
    AppState::EndMenu,
];

const SIGNALS: [Signal; 7] = [
    Signal::Play,
    Signal::Crash,
    Signal::LevelFinished,
    Signal::CampaignFinished,
    Signal::Retry,
    Signal::Return,
    Signal::Next,
];

#[test]
fn the_eight_permitted_transitions() {
    assert_eq!(AppState::MainMenu.next(Signal::Play), Some(AppState::Game));
    assert_eq!(AppState::Game.next(Signal::Crash), Some(AppState::FailedMenu));
    assert_eq!(AppState::Game.next(Signal::LevelFinished), Some(AppState::SuccessMenu));
    assert_eq!(AppState::Game.next(Signal::CampaignFinished), Some(AppState::EndMenu));
    assert_eq!(AppState::FailedMenu.next(Signal::Retry), Some(AppState::Game));
    assert_eq!(AppState::FailedMenu.next(Signal::Return), Some(AppState::MainMenu));
    assert_eq!(AppState::SuccessMenu.next(Signal::Next), Some(AppState::Game));
    assert_eq!(AppState::EndMenu.next(Signal::Return), Some(AppState::MainMenu));
}

#[test]
fn every_other_transition_is_refused() {
    let mut permitted = 0;
    for state in STATES {
        for signal in SIGNALS {
            if let Some(to) = state.next(signal) {
                permitted += 1;
                assert_ne!(to, state);
            }
        }
    }
    assert_eq!(permitted, 8);
    assert_eq!(AppState::MainMenu.next(Signal::Retry), None);
    assert_eq!(AppState::Game.next(Signal::Play), None);
    assert_eq!(AppState::SuccessMenu.next(Signal::Return), None);
    assert_eq!(AppState::EndMenu.next(Signal::Next), None);
    assert_eq!(AppState::FailedMenu.next(Signal::Crash), None);
}

#[test]
fn a_campaign_starts_at_level_one() {
    assert_eq!(CurrentLevel::new().number(), 1);
}

#[test]
fn the_campaign_has_three_levels() {
    assert_eq!(LEVEL_COUNT, 3);
}

#[test]
fn only_levels_one_to_three_exist() {
    assert!(CurrentLevel::from_number(0).is_none());
    assert_eq!(CurrentLevel::from_number(1).unwrap().number(), 1);
    assert_eq!(CurrentLevel::from_number(2).unwrap().number(), 2);
    assert_eq!(CurrentLevel::from_number(3).unwrap().number(), 3);
    assert!(CurrentLevel::from_number(4).is_none());
    assert!(CurrentLevel::from_number(u32::MAX).is_none());
}

#[test]
fn finishing_levels_cycles_through_the_campaign() {
    let mut level = CurrentLevel::new();
    assert!(!level.finish());
    assert_eq!(level.number(), 2);
    assert!(!level.finish());
    assert_eq!(level.number(), 3);
    assert!(level.finish());
    assert_eq!(level.number(), 1);
}
