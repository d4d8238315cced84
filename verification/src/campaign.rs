//! The course of a campaign: how the screen and the level move together,
//! tick by tick and click by click.

use crate::game::contact::{arbitrate, lemma_win_depends_on_level, Contact, Verdict};
use crate::state::{AppState, Signal, LEVEL_COUNT};
use vstd::prelude::*;

verus! {

/// Where a campaign stands.
pub struct Progress {
    pub state: AppState,
    pub level: int,
}

impl Progress {
    /// The level is one of the campaign's.
    pub open spec fn valid(self) -> bool {
        1 <= self.level <= LEVEL_COUNT
    }

    /// The signal is one that the state machine takes in this state, and a
    /// win is reported as the level warrants.
    pub open spec fn permits(self, signal: Signal) -> bool {
        &&& self.state.spec_next(signal) is Some
        &&& signal == Signal::LevelFinished ==> self.level < LEVEL_COUNT
        &&& signal == Signal::CampaignFinished ==> self.level == LEVEL_COUNT
    }

    /// Where the campaign stands once `signal` has been taken: one edge of
    /// the state machine further, a level up after a finished level, back at
    /// the first level after a finished campaign.
    pub open spec fn after(self, signal: Signal) -> Progress {
        match self.state.spec_next(signal) {
            None => self,
            Some(state) => Progress {
                state,
                level: match signal {
                    Signal::LevelFinished => self.level + 1,
                    Signal::CampaignFinished => 1,
                    _ => self.level,
                },
            },
        }
    }

    /// Where the campaign stands after a tick in which the physics service
    /// delivered `contacts`. Outside the game no contact is looked at.
    pub open spec fn play(self, contacts: Seq<Contact>) -> Progress {
        if self.state == AppState::Game {
            let verdict = arbitrate(contacts, self.level);
            Progress {
                state: match verdict.transition() {
                    Some(state) => state,
                    None => self.state,
                },
                level: verdict.level_after(self.level),
            }
        } else {
            self
        }
    }
}

/// The drone reaches the finish podium in this tick, before anything else
/// that counts.
pub open spec fn finishes(contacts: Seq<Contact>, level: int) -> bool {
    arbitrate(contacts, level) == Verdict::NextLevel || arbitrate(contacts, level)
        == Verdict::EndCampaign
}

/// A tick brings at most one transition: either nothing changes, or the
/// campaign takes exactly one signal that the state machine permits.
pub proof fn lemma_tick_takes_at_most_one_signal(progress: Progress, contacts: Seq<Contact>)
    requires
        progress.valid(),
    ensures
        progress.play(contacts) == progress || exists|signal: Signal|
            progress.permits(signal) && progress.play(contacts) == #[trigger] progress.after(signal),
        progress.state == AppState::Game ==> (match arbitrate(contacts, progress.level).signal() {
            None => progress.play(contacts) == progress,
            Some(signal) => progress.permits(signal) && progress.play(contacts) == progress.after(
                signal,
            ),
        }),
{
    if progress.state == AppState::Game {
        lemma_win_depends_on_level(contacts, progress.level);
        match arbitrate(contacts, progress.level).signal() {
            None => {},
            Some(signal) => {
                assert(progress.permits(signal));
                assert(progress.play(contacts) == progress.after(signal));
            },
        }
    }
}

/// The level stays one of the campaign's through every tick and every
/// permitted signal.
pub proof fn lemma_level_always_in_range(progress: Progress, contacts: Seq<Contact>, signal: Signal)
    requires
        progress.valid(),
    ensures
        progress.play(contacts).valid(),
        progress.permits(signal) ==> progress.after(signal).valid(),
        progress.state.spec_next(signal) is None ==> progress.after(signal) == progress,
{
    lemma_win_depends_on_level(contacts, progress.level);
}

/// Finishing three levels in a row from level 1, with a click on "Next"
/// after each of the first two, goes `SuccessMenu`, `Game`, `SuccessMenu`,
/// `Game`, `EndMenu` and leaves the campaign at level 1 again.
pub proof fn lemma_campaign_round_trip(
    first: Seq<Contact>,
    second: Seq<Contact>,
    third: Seq<Contact>,
)
    requires
        finishes(first, 1),
        finishes(second, 2),
        finishes(third, 3),
    ensures
        ({
            let start = Progress { state: AppState::Game, level: 1 };
            let won_first = start.play(first);
            let at_second = won_first.after(Signal::Next);
            let won_second = at_second.play(second);
            let at_third = won_second.after(Signal::Next);
            let won_third = at_third.play(third);
            &&& won_first == Progress { state: AppState::SuccessMenu, level: 2 }
            &&& at_second == Progress { state: AppState::Game, level: 2 }
            &&& won_second == Progress { state: AppState::SuccessMenu, level: 3 }
            &&& at_third == Progress { state: AppState::Game, level: 3 }
            &&& won_third == Progress { state: AppState::EndMenu, level: 1 }
        }),
{
    lemma_win_depends_on_level(first, 1);
    lemma_win_depends_on_level(second, 2);
    lemma_win_depends_on_level(third, 3);
}

} // verus!
