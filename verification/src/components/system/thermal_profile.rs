//! The thermal (fan) profile cards.
use vstd::prelude::*;
use crate::services::profiles::FanProfile;

verus! {

/// The thermal profile page: the highlighted profile and whether the ASUS
/// daemon answered.
pub struct ThermalProfileModel {
    pub active: FanProfile,
    pub asusd_available: bool,
}

/// User input on the thermal profile page.
#[derive(Debug)]
pub enum ThermalProfileMsg {
    /// The user clicked a profile card.
    Select(FanProfile),
    /// A saved profile set was loaded.
    LoadProfile(FanProfile),
}

/// Replies of the ASUS daemon.
#[derive(Debug)]
pub enum ThermalProfileCmd {
    AsusdChecked(bool),
    ProfileSet(FanProfile),
    Error(String),
}

/// What the page asks its surroundings to do.
pub enum ThermalProfileAction {
    /// Store this profile number in the active settings profile.
    SaveFanProfile(u32),
    /// Redraw the cards, highlighting the active profile.
    RebuildCards,
    /// Ask the daemon to switch to this profile.
    SetFanProfile(FanProfile),
    /// Pass this error message on to the window.
    Report(String),
}

impl ThermalProfileModel {
    /// Makes `p` the highlighted profile.
    pub fn apply_profile(&mut self, p: FanProfile)
        ensures
            final(self).active == p,
            final(self).asusd_available == old(self).asusd_available,
    {
        self.active = p;
    }

    /// The page after a user action, and what it asks for.
    pub open spec fn spec_update(self, msg: ThermalProfileMsg) -> (ThermalProfileModel, Seq<ThermalProfileAction>) {
        match msg {
            ThermalProfileMsg::Select(p) => if p == self.active {
                (self, Seq::empty())
            } else {
                (
                    ThermalProfileModel { active: p, ..self },
                    seq![
                        ThermalProfileAction::SaveFanProfile(p.spec_number()),
                        ThermalProfileAction::RebuildCards,
                        ThermalProfileAction::SetFanProfile(p),
                    ],
                )
            },
            ThermalProfileMsg::LoadProfile(p) => (
                ThermalProfileModel { active: p, ..self },
                if self.asusd_available {
                    seq![ThermalProfileAction::RebuildCards, ThermalProfileAction::SetFanProfile(p)]
                } else {
                    seq![ThermalProfileAction::RebuildCards]
                },
            ),
        }
    }

    /// The page after a daemon reply, and what it asks for.
    pub open spec fn spec_update_cmd(self, msg: ThermalProfileCmd) -> (ThermalProfileModel, Option<ThermalProfileAction>) {
        match msg {
            ThermalProfileCmd::AsusdChecked(a) => (
                ThermalProfileModel { asusd_available: a, ..self },
                None,
            ),
            ThermalProfileCmd::ProfileSet(p) => (
                ThermalProfileModel { active: p, ..self },
                Some(ThermalProfileAction::RebuildCards),
            ),
            ThermalProfileCmd::Error(e) => (self, Some(ThermalProfileAction::Report(e))),
        }
    }

    /// Handles a user action. Selecting the active profile does nothing;
    /// selecting another stores it, redraws and asks the daemon. Loading a
    /// profile always redraws, and asks the daemon only once it has answered.
    pub fn update(&mut self, msg: ThermalProfileMsg) -> (r: Vec<ThermalProfileAction>)
        ensures
            (*final(self), r@) == old(self).spec_update(msg),
    {
        let mut actions: Vec<ThermalProfileAction> = Vec::new();
        match msg {
            ThermalProfileMsg::Select(p) => {
                if p == self.active {
                    assert(actions@ =~= Seq::<ThermalProfileAction>::empty());
                    return actions;
                }
                self.active = p;
                actions.push(ThermalProfileAction::SaveFanProfile(p.number()));
                actions.push(ThermalProfileAction::RebuildCards);
                actions.push(ThermalProfileAction::SetFanProfile(p));
            },
            ThermalProfileMsg::LoadProfile(p) => {
                self.active = p;
                actions.push(ThermalProfileAction::RebuildCards);
                if self.asusd_available {
                    actions.push(ThermalProfileAction::SetFanProfile(p));
                }
            },
        }
        actions
    }

    /// Handles a daemon reply.
    pub fn update_cmd(&mut self, msg: ThermalProfileCmd) -> (r: Option<ThermalProfileAction>)
        ensures
            (*final(self), r) == old(self).spec_update_cmd(msg),
    {
        match msg {
            ThermalProfileCmd::AsusdChecked(a) => {
                self.asusd_available = a;
                None
            },
            ThermalProfileCmd::ProfileSet(p) => {
                self.active = p;
                Some(ThermalProfileAction::RebuildCards)
            },
            ThermalProfileCmd::Error(e) => Some(ThermalProfileAction::Report(e)),
        }
    }

    /// The cards in display order, each with whether it is highlighted.
    pub fn cards(&self) -> (r: Vec<(FanProfile, bool)>)
        ensures
            r@ == seq![
                (FanProfile::Quiet, self.active == FanProfile::Quiet),
                (FanProfile::Balanced, self.active == FanProfile::Balanced),
                (FanProfile::Performance, self.active == FanProfile::Performance),
            ],
    {
        let mut r: Vec<(FanProfile, bool)> = Vec::new();
        r.push((FanProfile::Quiet, self.active == FanProfile::Quiet));
        r.push((FanProfile::Balanced, self.active == FanProfile::Balanced));
        r.push((FanProfile::Performance, self.active == FanProfile::Performance));
        r
    }
}

/// Clicking the same profile card twice acts once: the second click leaves
/// the page as it was and asks for nothing.
pub proof fn lemma_select_twice_acts_once(page: ThermalProfileModel, p: FanProfile)
    ensures
        ({
            let (once, _) = page.spec_update(ThermalProfileMsg::Select(p));
            once.spec_update(ThermalProfileMsg::Select(p)) == (once, Seq::<ThermalProfileAction>::empty())
        }),
{
}

/// Whatever the user selects or loads, the daemon is asked for exactly the
/// profile that is then highlighted.
pub proof fn lemma_daemon_asked_for_highlighted(page: ThermalProfileModel, msg: ThermalProfileMsg)
    ensures
        ({
            let (next, actions) = page.spec_update(msg);
            forall|i: int|
                0 <= i < actions.len() ==> (#[trigger] actions[i] matches ThermalProfileAction::SetFanProfile(q) ==> q == next.active)
        }),
{
}

} // verus!
