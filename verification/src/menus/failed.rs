//! The menu shown after a crash.

use crate::menus::{ButtonPlan, Caption, Interaction, Layout, FONT};
use crate::state::{AppState, Signal, TransitionError};
use vstd::prelude::*;

verus! {

/// The buttons of the menu.
#[derive(Clone, Copy, Debug, PartialEq, Eq, Structural)]
pub enum MenuButton {
    /// Play the level again.
    Retry,
    /// Go back to the main menu.
    Return,
}

impl MenuButton {
    /// The event that a click on the button raises.
    pub open spec fn signal(self) -> Signal {
        match self {
            MenuButton::Retry => Signal::Retry,
            MenuButton::Return => Signal::Return,
        }
    }

    /// The state that a click on the button leads to.
    pub open spec fn spec_target(self) -> AppState {
        match self {
            MenuButton::Retry => AppState::Game,
            MenuButton::Return => AppState::MainMenu,
        }
    }

    /// The state that a click on the button leads to.
    #[verifier::when_used_as_spec(spec_target)]
    pub fn target(self) -> (to: AppState)
        ensures
            to == self.spec_target(),
    {
        match self {
            MenuButton::Retry => AppState::Game,
            MenuButton::Return => AppState::MainMenu,
        }
    }

    /// The button as the menu shows it.
    pub open spec fn spec_plan(self) -> ButtonPlan<MenuButton> {
        ButtonPlan {
            button: self,
            caption: Caption {
                text: match self {
                    MenuButton::Retry => "Retry",
                    MenuButton::Return => "Return to main menu",
                },
                font: FONT,
                font_size: 40,
            },
            width: 350,
            height: 65,
            margin_top: 4,
        }
    }

    /// The button as the menu shows it.
    #[verifier::when_used_as_spec(spec_plan)]
    pub fn plan(self) -> (plan: ButtonPlan<MenuButton>)
        ensures
            plan == self.spec_plan(),
    {
        let text = match self {
            MenuButton::Retry => "Retry",
            MenuButton::Return => "Return to main menu",
        };
        ButtonPlan {
            button: self,
            caption: Caption { text, font: FONT, font_size: 40 },
            width: 350,
            height: 65,
            margin_top: 4,
        }
    }
}

/// The title of the menu.
pub open spec fn title() -> Caption {
    Caption { text: "Failed", font: FONT, font_size: 100 }
}

/// Lays the menu out: the title "Failed" over the buttons `Retry` and
/// `Return`, in this order.
pub fn setup() -> (menu: Layout<MenuButton>)
    ensures
        menu.title == title(),
        menu.buttons@ == seq![MenuButton::Retry.spec_plan(), MenuButton::Return.spec_plan()],
{
    let mut buttons = Vec::new();
    buttons.push(MenuButton::Retry.plan());
    buttons.push(MenuButton::Return.plan());
    Layout { title: Caption { text: "Failed", font: FONT, font_size: 100 }, buttons }
}

/// The button at `at` was clicked.
pub open spec fn clicked_at(input: Seq<(Interaction, MenuButton)>, at: int) -> bool {
    0 <= at < input.len() && input[at].0 == Interaction::Clicked
}

/// Routes this frame's clicks on the menu: the state the application must
/// switch to, or `None` where no button was clicked.
///
/// A tick carries at most one transition, so two clicked buttons in one
/// frame are refused.
pub fn click(input: &Vec<(Interaction, MenuButton)>) -> (next: Result<
    Option<AppState>,
    TransitionError,
>)
    ensures
        next is Err <==> exists|i: int, j: int| i < j && clicked_at(input@, i) && clicked_at(input@, j),
        next is Err ==> next == Err::<Option<AppState>, TransitionError>(
            TransitionError::AlreadyQueued,
        ),
        next == Ok::<Option<AppState>, TransitionError>(None) <==> forall|i: int|
            !clicked_at(input@, i),
        forall|i: int|
            next is Ok && clicked_at(input@, i) ==> next == Ok::<Option<AppState>, TransitionError>(
                Some(input@[i].1.spec_target()),
            ),
{
    let count = input.len();
    let mut chosen: Option<MenuButton> = None;
    let ghost mut chosen_at: int = 0;
    let mut index: usize = 0;
    while index < count
        invariant
            count == input@.len(),
            index <= count,
            chosen is None ==> forall|i: int| 0 <= i < index ==> !clicked_at(input@, i),
            chosen is Some ==> 0 <= chosen_at < index && clicked_at(input@, chosen_at)
                && input@[chosen_at].1 == chosen.unwrap(),
            chosen is Some ==> forall|i: int|
                0 <= i < index && i != chosen_at ==> !clicked_at(input@, i),
        decreases count - index,
    {
        let (interaction, button) = input[index];
        match interaction {
            Interaction::Clicked => {
                if chosen.is_some() {
                    assert(clicked_at(input@, chosen_at) && clicked_at(input@, index as int));
                    return Err(TransitionError::AlreadyQueued);
                }
                chosen = Some(button);
                proof {
                    chosen_at = index as int;
                }
            },
            _ => {},
        }
        index = index + 1;
    }
    match chosen {
        Some(button) => {
            assert(clicked_at(input@, chosen_at));
            Ok(Some(button.target()))
        },
        None => Ok(None),
    }
}

/// Every click on the menu follows an edge that leaves `FailedMenu` in the
/// application state machine.
pub proof fn lemma_click_follows_state_machine(button: MenuButton)
    ensures
        AppState::FailedMenu.spec_next(button.signal()) == Some(button.spec_target()),
{
}

} // verus!
