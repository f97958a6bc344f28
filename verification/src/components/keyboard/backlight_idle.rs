//! When the keyboard backlight times out.
use vstd::prelude::*;

verus! {

/// When the keyboard backlight idle timeout applies.
#[derive(Debug, Clone, Copy, PartialEq, Eq, Structural)]
pub enum TimeoutMode {
    Never,
    /// Timeout on both AC and battery.
    BatteryAndAc,
    /// Timeout only when running on battery.
    BatteryOnly,
}

impl Default for TimeoutMode {
    fn default() -> (r: TimeoutMode)
        ensures
            r == TimeoutMode::Never,
    {
        TimeoutMode::Never
    }
}

impl TimeoutMode {
    pub open spec fn spec_number(self) -> u32 {
        match self {
            TimeoutMode::Never => 0,
            TimeoutMode::BatteryAndAc => 1,
            TimeoutMode::BatteryOnly => 2,
        }
    }

    pub open spec fn spec_from_number(v: u32) -> TimeoutMode {
        if v == 1 {
            TimeoutMode::BatteryAndAc
        } else if v == 2 {
            TimeoutMode::BatteryOnly
        } else {
            TimeoutMode::Never
        }
    }

    /// The number stored in the settings file for this mode.
    pub fn number(self) -> (r: u32)
        ensures
            r == self.spec_number(),
    {
        match self {
            TimeoutMode::Never => 0,
            TimeoutMode::BatteryAndAc => 1,
            TimeoutMode::BatteryOnly => 2,
        }
    }

    /// The mode a stored number stands for: 1 and 2 are the timeouts, every
    /// other number is `Never`.
    pub fn from_number(v: u32) -> (r: TimeoutMode)
        ensures
            r == TimeoutMode::spec_from_number(v),
    {
        if v == 1 {
            TimeoutMode::BatteryAndAc
        } else if v == 2 {
            TimeoutMode::BatteryOnly
        } else {
            TimeoutMode::Never
        }
    }
}

/// The backlight idle page: the selected mode.
#[derive(PartialEq, Eq, Structural, Clone, Copy)]
pub struct BacklightIdleModel {
    pub timeout_mode: TimeoutMode,
}

/// User input on the backlight idle page.
#[derive(Debug)]
pub enum BacklightIdleMsg {
    ChangeMode(TimeoutMode),
    /// A saved profile set was loaded; the mode is its stored number.
    LoadProfile(u32),
    /// Ambient settings changed; nothing depends on them yet.
    AmbientChanged,
}

/// Replies of background work.
#[derive(Debug)]
pub enum BacklightIdleCommandOutput {
    Error(String),
}

/// What the page asks its surroundings to do.
pub enum BacklightIdleAction {
    /// Store this mode number in the active settings profile.
    SaveTimeoutMode(u32),
    /// Redraw the cards.
    RebuildCards,
    /// Pass this error message on to the window.
    Report(String),
}

impl BacklightIdleModel {
    /// The page after a user action, and what it asks for.
    pub open spec fn spec_update(self, msg: BacklightIdleMsg) -> (BacklightIdleModel, Seq<BacklightIdleAction>) {
        match msg {
            BacklightIdleMsg::ChangeMode(m) => if m == self.timeout_mode {
                (self, Seq::empty())
            } else {
                (
                    BacklightIdleModel { timeout_mode: m },
                    seq![
                        BacklightIdleAction::SaveTimeoutMode(m.spec_number()),
                        BacklightIdleAction::RebuildCards,
                    ],
                )
            },
            BacklightIdleMsg::LoadProfile(n) => {
                let m = TimeoutMode::spec_from_number(n);
                if m == self.timeout_mode {
                    (self, Seq::empty())
                } else {
                    (BacklightIdleModel { timeout_mode: m }, seq![BacklightIdleAction::RebuildCards])
                }
            },
            BacklightIdleMsg::AmbientChanged => (self, Seq::empty()),
        }
    }

    /// Handles a user action: a new mode is shown, and stored when the user
    /// chose it; the current mode again does nothing.
    pub fn update(&mut self, msg: BacklightIdleMsg) -> (r: Vec<BacklightIdleAction>)
        ensures
            (*final(self), r@) == old(self).spec_update(msg),
    {
        let mut actions: Vec<BacklightIdleAction> = Vec::new();
        match msg {
            BacklightIdleMsg::ChangeMode(m) => {
                if m == self.timeout_mode {
                    assert(actions@ =~= Seq::<BacklightIdleAction>::empty());
                    return actions;
                }
                self.timeout_mode = m;
                actions.push(BacklightIdleAction::SaveTimeoutMode(m.number()));
                actions.push(BacklightIdleAction::RebuildCards);
            },
            BacklightIdleMsg::LoadProfile(n) => {
                let m = TimeoutMode::from_number(n);
                if m == self.timeout_mode {
                    assert(actions@ =~= Seq::<BacklightIdleAction>::empty());
                    return actions;
                }
                self.timeout_mode = m;
                actions.push(BacklightIdleAction::RebuildCards);
            },
            BacklightIdleMsg::AmbientChanged => {
                assert(actions@ =~= Seq::<BacklightIdleAction>::empty());
            },
        }
        actions
    }

    /// Handles a reply: errors are passed on.
    pub fn update_cmd(&mut self, msg: BacklightIdleCommandOutput) -> (r: BacklightIdleAction)
        ensures
            *final(self) == *old(self),
            match msg {
                BacklightIdleCommandOutput::Error(e) => r == BacklightIdleAction::Report(e),
            },
    {
        match msg {
            BacklightIdleCommandOutput::Error(e) => BacklightIdleAction::Report(e),
        }
    }

    /// The cards in display order, each with whether it is highlighted.
    pub fn cards(&self) -> (r: Vec<(TimeoutMode, bool)>)
        ensures
            r@ == seq![
                (TimeoutMode::Never, self.timeout_mode == TimeoutMode::Never),
                (TimeoutMode::BatteryAndAc, self.timeout_mode == TimeoutMode::BatteryAndAc),
                (TimeoutMode::BatteryOnly, self.timeout_mode == TimeoutMode::BatteryOnly),
            ],
    {
        let mut r: Vec<(TimeoutMode, bool)> = Vec::new();
        r.push((TimeoutMode::Never, self.timeout_mode == TimeoutMode::Never));
        r.push((TimeoutMode::BatteryAndAc, self.timeout_mode == TimeoutMode::BatteryAndAc));
        r.push((TimeoutMode::BatteryOnly, self.timeout_mode == TimeoutMode::BatteryOnly));
        r
    }
}

/// Storing a mode and reading it back gives the same mode.
pub proof fn lemma_timeout_mode_number_round_trip(m: TimeoutMode)
    ensures
        TimeoutMode::spec_from_number(m.spec_number()) == m,
{
}

/// Loading the mode that a choice stored shows that choice and asks for
/// nothing more.
pub proof fn lemma_load_stored_mode_is_noop(page: BacklightIdleModel, m: TimeoutMode)
    ensures
        ({
            let (chosen, _) = page.spec_update(BacklightIdleMsg::ChangeMode(m));
            chosen.spec_update(BacklightIdleMsg::LoadProfile(m.spec_number())) == (
                chosen,
                Seq::<BacklightIdleAction>::empty(),
            )
        }),
{
}

} // verus!
