//! Contact events as the outcome arbiter sees them, and what it decides.

use crate::game::{Drone, Podium, PodiumType};
use crate::state::{AppState, CurrentLevel, Signal, LEVEL_COUNT};
use vstd::prelude::*;

verus! {

/// What the world registry knows of one entity that took part in a contact.
#[derive(Clone, Copy, Debug, PartialEq, Eq, Structural)]
pub struct Participant {
    /// The drone marker, where the entity carries it.
    pub drone: Option<Drone>,
    /// The podium marker, where the entity carries one.
    pub podium: Option<Podium>,
}

/// One contact event of the physics service.
#[derive(Clone, Copy, Debug, PartialEq, Eq, Structural)]
pub struct Contact {
    /// Whether the contact started; a contact that ended is never acted on.
    pub started: bool,
    pub first: Participant,
    pub second: Participant,
}

/// What the arbiter decides.
#[derive(Clone, Copy, Debug, PartialEq, Eq, Structural)]
pub enum Verdict {
    /// Nothing happens.
    Ignore,
    /// The run has failed.
    Fail,
    /// The level is won and another one follows.
    NextLevel,
    /// The last level is won.
    EndCampaign,
}

impl Contact {
    /// One of the two participants is the drone.
    pub open spec fn involves_drone(self) -> bool {
        self.first.drone is Some || self.second.drone is Some
    }

    /// The drone met an entity that is no podium.
    pub open spec fn hits_obstacle(self) -> bool {
        ||| self.first.drone is Some && self.second.podium is None
        ||| self.second.drone is Some && self.first.podium is None
    }

    /// The podium marker of the entity that the drone met.
    pub open spec fn podium_met(self) -> Option<Podium> {
        if self.first.drone is Some {
            self.second.podium
        } else if self.second.drone is Some {
            self.first.podium
        } else {
            None
        }
    }

    /// The decision on this contact alone while `level` is being played.
    pub open spec fn verdict(self, level: int) -> Verdict {
        if !self.started {
            Verdict::Ignore
        } else if self.hits_obstacle() {
            Verdict::Fail
        } else if self.podium_met() == Some(Podium(PodiumType::Finish)) {
            if level < LEVEL_COUNT {
                Verdict::NextLevel
            } else {
                Verdict::EndCampaign
            }
        } else {
            Verdict::Ignore
        }
    }

    /// Decides on this contact alone.
    pub fn judge(&self, level: &CurrentLevel) -> (v: Verdict)
        ensures
            v == self.verdict(level@),
    {
        if !self.started {
            return Verdict::Ignore;
        }
        let first_is_drone = self.first.drone.is_some();
        let second_is_drone = self.second.drone.is_some();
        if (first_is_drone && self.second.podium.is_none()) || (second_is_drone
            && self.first.podium.is_none()) {
            return Verdict::Fail;
        }
        let met = if first_is_drone {
            self.second.podium
        } else if second_is_drone {
            self.first.podium
        } else {
            None
        };
        match met {
            Some(Podium(PodiumType::Finish)) => {
                if level.number() < LEVEL_COUNT {
                    Verdict::NextLevel
                } else {
                    Verdict::EndCampaign
                }
            },
            _ => Verdict::Ignore,
        }
    }
}

impl Verdict {
    /// The event that the verdict raises in the application state machine.
    pub open spec fn signal(self) -> Option<Signal> {
        match self {
            Verdict::Ignore => None,
            Verdict::Fail => Some(Signal::Crash),
            Verdict::NextLevel => Some(Signal::LevelFinished),
            Verdict::EndCampaign => Some(Signal::CampaignFinished),
        }
    }

    /// The state that the application must switch to, if any.
    pub open spec fn transition(self) -> Option<AppState> {
        match self {
            Verdict::Ignore => None,
            Verdict::Fail => Some(AppState::FailedMenu),
            Verdict::NextLevel => Some(AppState::SuccessMenu),
            Verdict::EndCampaign => Some(AppState::EndMenu),
        }
    }

    /// The level counter once the verdict is carried out.
    pub open spec fn level_after(self, level: int) -> int {
        match self {
            Verdict::NextLevel => level + 1,
            Verdict::EndCampaign => 1,
            _ => level,
        }
    }
}

/// The decision on one tick's contacts, in the order the physics service
/// delivered them: the verdict of the first contact that is not ignored.
/// Whatever follows that contact is discarded.
pub open spec fn arbitrate(contacts: Seq<Contact>, level: int) -> Verdict
    decreases contacts.len(),
{
    if contacts.len() == 0 {
        Verdict::Ignore
    } else if contacts[0].verdict(level) != Verdict::Ignore {
        contacts[0].verdict(level)
    } else {
        arbitrate(contacts.drop_first(), level)
    }
}

/// Where the first `at` contacts are ignored and the one at `at` is not, that
/// contact decides.
pub proof fn lemma_first_decisive_contact_decides(contacts: Seq<Contact>, level: int, at: int)
    requires
        0 <= at < contacts.len(),
        forall|i: int| 0 <= i < at ==> (#[trigger] contacts[i]).verdict(level) == Verdict::Ignore,
        contacts[at].verdict(level) != Verdict::Ignore,
    ensures
        arbitrate(contacts, level) == contacts[at].verdict(level),
    decreases at,
{
    if at > 0 {
        let rest = contacts.drop_first();
        assert forall|i: int| 0 <= i < at - 1 implies (#[trigger] rest[i]).verdict(level)
            == Verdict::Ignore by {
            assert(rest[i] == contacts[i + 1]);
        }
        assert(rest[at - 1] == contacts[at]);
        lemma_first_decisive_contact_decides(rest, level, at - 1);
    }
}

/// The tick's verdict is `Ignore` exactly when every contact is ignored.
pub proof fn lemma_ignored_iff_all_ignored(contacts: Seq<Contact>, level: int)
    ensures
        arbitrate(contacts, level) == Verdict::Ignore <==> forall|i: int|
            0 <= i < contacts.len() ==> (#[trigger] contacts[i]).verdict(level) == Verdict::Ignore,
    decreases contacts.len(),
{
    if contacts.len() > 0 {
        let rest = contacts.drop_first();
        lemma_ignored_iff_all_ignored(rest, level);
        if contacts[0].verdict(level) == Verdict::Ignore {
            if arbitrate(rest, level) == Verdict::Ignore {
                assert forall|i: int| 0 <= i < contacts.len() implies (#[trigger] contacts[i]).verdict(
                    level,
                ) == Verdict::Ignore by {
                    if i > 0 {
                        assert(rest[i - 1] == contacts[i]);
                    }
                }
            } else {
                let k = choose|k: int|
                    0 <= k < rest.len() && (#[trigger] rest[k]).verdict(level) != Verdict::Ignore;
                assert(contacts[k + 1] == rest[k]);
            }
        }
    }
}

/// A verdict other than `Ignore` is that of some contact before which every
/// contact was ignored.
pub proof fn lemma_verdict_has_a_witness(contacts: Seq<Contact>, level: int) -> (at: int)
    requires
        arbitrate(contacts, level) != Verdict::Ignore,
    ensures
        0 <= at < contacts.len(),
        contacts[at].verdict(level) == arbitrate(contacts, level),
        forall|i: int| 0 <= i < at ==> (#[trigger] contacts[i]).verdict(level) == Verdict::Ignore,
    decreases contacts.len(),
{
    if contacts[0].verdict(level) != Verdict::Ignore {
        0
    } else {
        let rest = contacts.drop_first();
        let k = lemma_verdict_has_a_witness(rest, level);
        assert(rest[k] == contacts[k + 1]);
        assert forall|i: int| 0 <= i < k + 1 implies (#[trigger] contacts[i]).verdict(level)
            == Verdict::Ignore by {
            if i > 0 {
                assert(rest[i - 1] == contacts[i]);
            }
        }
        k + 1
    }
}

/// The decision on a contact that started, by what the drone met: an entity
/// without a podium marker fails the run, the start podium changes nothing,
/// the finish podium wins the level. A contact that ended, or in which
/// neither participant is the drone, changes nothing.
pub proof fn lemma_verdict_by_what_the_drone_met(contact: Contact, level: int)
    ensures
        !contact.started || !contact.involves_drone() ==> contact.verdict(level) == Verdict::Ignore,
        contact.started && contact.first.drone is Some && contact.second.drone is None ==> (
        match contact.second.podium {
            None => contact.verdict(level) == Verdict::Fail,
            Some(Podium(PodiumType::Start)) => contact.verdict(level) == Verdict::Ignore,
            Some(Podium(PodiumType::Finish)) => contact.verdict(level) == (if level < LEVEL_COUNT {
                Verdict::NextLevel
            } else {
                Verdict::EndCampaign
            }),
        }),
        contact.started && contact.second.drone is Some && contact.first.drone is None ==> (
        match contact.first.podium {
            None => contact.verdict(level) == Verdict::Fail,
            Some(Podium(PodiumType::Start)) => contact.verdict(level) == Verdict::Ignore,
            Some(Podium(PodiumType::Finish)) => contact.verdict(level) == (if level < LEVEL_COUNT {
                Verdict::NextLevel
            } else {
                Verdict::EndCampaign
            }),
        }),
{
}

/// Contacts in which neither participant is the drone leave the state and
/// the level as they are.
pub proof fn lemma_contacts_without_drone_change_nothing(contacts: Seq<Contact>, level: int)
    requires
        forall|i: int| 0 <= i < contacts.len() ==> !(#[trigger] contacts[i]).involves_drone(),
    ensures
        arbitrate(contacts, level) == Verdict::Ignore,
        arbitrate(contacts, level).transition() is None,
        arbitrate(contacts, level).level_after(level) == level,
{
    assert forall|i: int| 0 <= i < contacts.len() implies (#[trigger] contacts[i]).verdict(level)
        == Verdict::Ignore by {
        lemma_verdict_by_what_the_drone_met(contacts[i], level);
    }
    lemma_ignored_iff_all_ignored(contacts, level);
}

/// Once a tick's contacts have brought a decision, the contacts that follow
/// in the same tick change nothing; contacts that are all ignored leave the
/// decision to those that follow.
pub proof fn lemma_contacts_after_a_decision_are_discarded(
    before: Seq<Contact>,
    after: Seq<Contact>,
    level: int,
)
    ensures
        arbitrate(before, level) != Verdict::Ignore ==> arbitrate(before + after, level)
            == arbitrate(before, level),
        arbitrate(before, level) == Verdict::Ignore ==> arbitrate(before + after, level)
            == arbitrate(after, level),
    decreases before.len(),
{
    if before.len() == 0 {
        assert(before + after == after);
    } else {
        assert((before + after)[0] == before[0]);
        assert((before + after).drop_first() == before.drop_first() + after);
        lemma_contacts_after_a_decision_are_discarded(before.drop_first(), after, level);
    }
}

/// A win leads to the next level only while one is left, and ends the
/// campaign only on the last level.
pub proof fn lemma_win_depends_on_level(contacts: Seq<Contact>, level: int)
    ensures
        arbitrate(contacts, level) == Verdict::NextLevel ==> level < LEVEL_COUNT,
        arbitrate(contacts, level) == Verdict::EndCampaign ==> level >= LEVEL_COUNT,
{
    if arbitrate(contacts, level) != Verdict::Ignore {
        let _ = lemma_verdict_has_a_witness(contacts, level);
    }
}

/// Whatever the contacts, the level stays one of the campaign's.
pub proof fn lemma_level_stays_in_range(contacts: Seq<Contact>, level: int)
    requires
        1 <= level <= LEVEL_COUNT,
    ensures
        1 <= arbitrate(contacts, level).level_after(level) <= LEVEL_COUNT,
{
    lemma_win_depends_on_level(contacts, level);
}

/// The state a verdict leads to is the one that its signal leads to from
/// `Game` in the application state machine.
pub proof fn lemma_verdict_follows_state_machine(verdict: Verdict)
    ensures
        verdict.signal() is None <==> verdict.transition() is None,
        verdict.signal() is Some ==> AppState::Game.spec_next(verdict.signal().unwrap())
            == verdict.transition(),
{
}

} // verus!
