//! The application state machine and the level counter.

use vstd::prelude::*;

verus! {

/// The screen the application shows. Exactly one at a time.
#[derive(Clone, Copy, Debug, PartialEq, Eq, Hash, Structural)]
pub enum AppState {
    MainMenu,
    Game,
    SuccessMenu,
    FailedMenu,
    EndMenu,
}

/// The discrete events that move the application from one screen to another.
#[derive(Clone, Copy, Debug, PartialEq, Eq, Structural)]
pub enum Signal {
    /// The player clicked "Play".
    Play,
    /// The drone hit something that is not a podium.
    Crash,
    /// The drone reached the finish podium of a level that is not the last.
    LevelFinished,
    /// The drone reached the finish podium of the last level.
    CampaignFinished,
    /// The player clicked "Retry".
    Retry,
    /// The player clicked "Return".
    Return,
    /// The player clicked "Next".
    Next,
}

impl AppState {
    /// The permitted transitions: the state that `signal` leads to from
    /// `self`, or `None` where the state machine has no such edge.
    pub open spec fn spec_next(self, signal: Signal) -> Option<AppState> {
        match (self, signal) {
            (AppState::MainMenu, Signal::Play) => Some(AppState::Game),
            (AppState::Game, Signal::Crash) => Some(AppState::FailedMenu),
            (AppState::Game, Signal::LevelFinished) => Some(AppState::SuccessMenu),
            (AppState::Game, Signal::CampaignFinished) => Some(AppState::EndMenu),
            (AppState::FailedMenu, Signal::Retry) => Some(AppState::Game),
            (AppState::FailedMenu, Signal::Return) => Some(AppState::MainMenu),
            (AppState::SuccessMenu, Signal::Next) => Some(AppState::Game),
            (AppState::EndMenu, Signal::Return) => Some(AppState::MainMenu),
            _ => None,
        }
    }

    /// Looks `signal` up among the edges that leave `self`.
    #[verifier::when_used_as_spec(spec_next)]
    pub fn next(self, signal: Signal) -> (to: Option<AppState>)
        ensures
            to == self.spec_next(signal),
    {
        match self {
            AppState::MainMenu => match signal {
                Signal::Play => Some(AppState::Game),
                _ => None,
            },
            AppState::Game => match signal {
                Signal::Crash => Some(AppState::FailedMenu),
                Signal::LevelFinished => Some(AppState::SuccessMenu),
                Signal::CampaignFinished => Some(AppState::EndMenu),
                _ => None,
            },
            AppState::FailedMenu => match signal {
                Signal::Retry => Some(AppState::Game),
                Signal::Return => Some(AppState::MainMenu),
                _ => None,
            },
            AppState::SuccessMenu => match signal {
                Signal::Next => Some(AppState::Game),
                _ => None,
            },
            AppState::EndMenu => match signal {
                Signal::Return => Some(AppState::MainMenu),
                _ => None,
            },
        }
    }
}

/// No edge of the state machine is a self-loop, and every state but `Game`
/// leads only to `Game` or to `MainMenu`.
pub proof fn lemma_transitions_change_the_state(from: AppState, signal: Signal)
    ensures
        from.spec_next(signal) != Some(from),
        from != AppState::Game && from.spec_next(signal) is Some ==> from.spec_next(signal)
            == Some(AppState::Game) || from.spec_next(signal) == Some(AppState::MainMenu),
{
}

/// Why a transition was refused.
#[derive(Clone, Copy, Debug, PartialEq, Eq, Structural)]
pub enum TransitionError {
    /// The tick already has a transition; a tick carries at most one.
    AlreadyQueued,
}

/// Number of levels in the campaign.
pub const LEVEL_COUNT: u32 = 3;

/// The level a finish leads to: the next one, or the first after the last.
pub open spec fn level_after_finish(level: int) -> int {
    if level < LEVEL_COUNT {
        level + 1
    } else {
        1
    }
}

/// The level being played: always one of `1..=LEVEL_COUNT`.
#[derive(Clone, Copy, Debug)]
pub struct CurrentLevel(u32);

impl View for CurrentLevel {
    type V = int;

    closed spec fn view(&self) -> int {
        self.0 as int
    }
}

impl CurrentLevel {
    /// What holds of every level counter: it names a level of the campaign.
    #[verifier::type_invariant]
    pub open spec fn in_range(self) -> bool {
        1 <= self@ <= LEVEL_COUNT
    }

    /// The level a fresh campaign starts at.
    pub fn new() -> (level: CurrentLevel)
        ensures
            level@ == 1,
    {
        CurrentLevel(1)
    }

    /// The level numbered `number`, where the campaign has one.
    pub fn from_number(number: u32) -> (level: Option<CurrentLevel>)
        ensures
            level is Some <==> 1 <= number <= LEVEL_COUNT,
            level is Some ==> level.unwrap()@ == number,
    {
        if 1 <= number && number <= LEVEL_COUNT {
            Some(CurrentLevel(number))
        } else {
            None
        }
    }

    /// The level's number.
    pub fn number(&self) -> (number: u32)
        ensures
            number == self@,
            1 <= number <= LEVEL_COUNT,
    {
        proof {
            use_type_invariant(self);
        }
        self.0
    }

    /// Records a finished level: moves on to the next level, or back to the
    /// first when the last one was finished. Returns whether it was the last.
    pub fn finish(&mut self) -> (was_last: bool)
        ensures
            final(self)@ == level_after_finish(old(self)@),
            was_last == (old(self)@ == LEVEL_COUNT),
            1 <= final(self)@ <= LEVEL_COUNT,
    {
        proof {
            use_type_invariant(&*self);
        }
        if self.0 < LEVEL_COUNT {
            self.0 = self.0 + 1;
            false
        } else {
            self.0 = 1;
            true
        }
    }
}

/// A finish never takes the level out of `1..=LEVEL_COUNT`.
pub proof fn lemma_finish_keeps_level_in_range(level: int)
    requires
        1 <= level <= LEVEL_COUNT,
    ensures
        1 <= level_after_finish(level) <= LEVEL_COUNT,
{
}

/// Finishing as many levels as the campaign has brings the counter back to
/// where it started; in between it visits every other level once.
pub proof fn lemma_finishing_every_level_returns(level: int)
    requires
        1 <= level <= LEVEL_COUNT,
    ensures
        level_after_finish(level_after_finish(level_after_finish(level))) == level,
        level_after_finish(level) != level,
        level_after_finish(level_after_finish(level)) != level,
        level_after_finish(level_after_finish(level)) != level_after_finish(level),
{
}

} // verus!
