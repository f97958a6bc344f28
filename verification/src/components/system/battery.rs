//! The battery page: maintenance charging, the one-shot full charge and the
//! deep-sleep switch.
use vstd::prelude::*;
use crate::text::{contains, spec_contains};

verus! {

/// The battery page's state.
#[derive(PartialEq, Eq, Structural, Clone, Copy)]
pub struct BatteryModel {
    pub asusd_available: bool,
    pub maintenance_mode_active: bool,
    pub deep_sleep_active: bool,
    pub deep_sleep_supported: bool,
}

/// User input on the battery page.
#[derive(Debug)]
pub enum BatteryMsg {
    ToggleMaintenanceMode(bool),
    TriggerOneShot,
    ToggleDeepSleep(bool),
    LoadProfile(bool),
}

/// Replies of the daemon and of the sysfs writer.
#[derive(Debug)]
pub enum BatteryCommandOutput {
    AsusdChecked(bool),
    ChargeLimitSet(u8),
    Error(String),
    TimerElapsed,
    InitValue(u8),
    InitDeepSleep(bool),
    DeepSleepSet(bool),
    DeepSleepSupported(bool),
}

/// A suspend mode written to `/sys/power/mem_sleep`.
#[derive(PartialEq, Eq, Structural, Clone, Copy, Debug)]
pub enum SleepMode {
    Deep,
    S2Idle,
}

impl SleepMode {
    pub open spec fn spec_sysfs_value(self) -> Seq<char> {
        match self {
            SleepMode::Deep => "deep"@,
            SleepMode::S2Idle => "s2idle"@,
        }
    }

    /// The text written to sysfs for this mode.
    pub fn sysfs_value(self) -> (r: &'static str)
        ensures
            r@ == self.spec_sysfs_value(),
    {
        match self {
            SleepMode::Deep => "deep",
            SleepMode::S2Idle => "s2idle",
        }
    }

    pub open spec fn spec_for(deep: bool) -> SleepMode {
        if deep {
            SleepMode::Deep
        } else {
            SleepMode::S2Idle
        }
    }
}

/// What the page asks its surroundings to do.
pub enum BatteryAction {
    /// Ask the daemon to set this charge limit.
    SetChargeLimit(u8),
    /// Ask the daemon for `ONE_SHOT_CHARGE_LIMIT` now and hand its answer to
    /// `one_shot_outcome`, which decides whether the day-long wait starts.
    StartOneShotCharge,
    /// Tell the user that deep sleep is not supported.
    ReportDeepSleepUnsupported,
    /// Store the deep-sleep choice in the active settings profile.
    SaveDeepSleep(bool),
    /// Write this suspend mode to sysfs.
    WriteMemSleep(SleepMode),
    /// Log the suspend mode now in effect.
    LogDeepSleepSet(SleepMode),
    /// Log the charge limit the daemon set.
    LogChargeLimitSet(u8),
    /// Pass this error message on to the window.
    Report(String),
}

/// The charge limit asked for by the one-shot full charge.
pub const ONE_SHOT_CHARGE_LIMIT: u8 = 100;

/// How long the one-shot full charge lasts before the limit goes back to
/// 80 %: one day, in seconds.
pub const ONE_SHOT_HOLD_SECS: u64 = 86400;

/// What the one-shot full charge does with the daemon's answer to setting
/// `ONE_SHOT_CHARGE_LIMIT`: a limit that was set is reported and starts the
/// day-long wait that ends in `TimerElapsed` (the second part is `true`); an
/// error is reported and starts no wait.
pub fn one_shot_outcome(set: Result<u8, String>) -> (r: (BatteryCommandOutput, bool))
    ensures
        match set {
            Ok(v) => r.0 == BatteryCommandOutput::ChargeLimitSet(v) && r.1,
            Err(e) => r.0 == BatteryCommandOutput::Error(e) && !r.1,
        },
{
    match set {
        Ok(v) => (BatteryCommandOutput::ChargeLimitSet(v), true),
        Err(e) => (BatteryCommandOutput::Error(e), false),
    }
}

/// The charge limit that goes with maintenance mode on (80 %) or off (100 %).
pub open spec fn spec_maintenance_limit(active: bool) -> u8 {
    if active {
        80
    } else {
        100
    }
}

impl BatteryModel {
    /// The page before anything has been read.
    pub fn new() -> (r: BatteryModel)
        ensures
            r == (BatteryModel {
                asusd_available: false,
                maintenance_mode_active: false,
                deep_sleep_active: false,
                deep_sleep_supported: false,
            }),
    {
        BatteryModel {
            asusd_available: false,
            maintenance_mode_active: false,
            deep_sleep_active: false,
            deep_sleep_supported: false,
        }
    }

    /// The page after a user action, and what it asks for.
    pub open spec fn spec_update(self, msg: BatteryMsg) -> (BatteryModel, Seq<BatteryAction>) {
        match msg {
            BatteryMsg::ToggleMaintenanceMode(active) => if active == self.maintenance_mode_active {
                (self, Seq::empty())
            } else {
                (
                    BatteryModel { maintenance_mode_active: active, ..self },
                    seq![BatteryAction::SetChargeLimit(spec_maintenance_limit(active))],
                )
            },
            BatteryMsg::TriggerOneShot => (self, seq![BatteryAction::StartOneShotCharge]),
            BatteryMsg::ToggleDeepSleep(active) => if active && !self.deep_sleep_supported {
                (self, seq![BatteryAction::ReportDeepSleepUnsupported])
            } else if active == self.deep_sleep_active {
                (self, Seq::empty())
            } else {
                (
                    BatteryModel { deep_sleep_active: active, ..self },
                    seq![
                        BatteryAction::SaveDeepSleep(active),
                        BatteryAction::WriteMemSleep(SleepMode::spec_for(active)),
                    ],
                )
            },
            BatteryMsg::LoadProfile(active) => if self.deep_sleep_active == active
                || !self.deep_sleep_supported {
                (self, Seq::empty())
            } else {
                (
                    BatteryModel { deep_sleep_active: active, ..self },
                    seq![BatteryAction::WriteMemSleep(SleepMode::spec_for(active))],
                )
            },
        }
    }

    /// The page after a reply, and what it asks for.
    pub open spec fn spec_update_cmd(self, msg: BatteryCommandOutput) -> (BatteryModel, Option<BatteryAction>) {
        match msg {
            BatteryCommandOutput::AsusdChecked(a) => (BatteryModel { asusd_available: a, ..self }, None),
            BatteryCommandOutput::InitValue(v) => (
                BatteryModel { maintenance_mode_active: v != 100, ..self },
                None,
            ),
            BatteryCommandOutput::InitDeepSleep(a) => (
                BatteryModel { deep_sleep_active: a, ..self },
                None,
            ),
            BatteryCommandOutput::DeepSleepSupported(s) => (
                BatteryModel {
                    deep_sleep_supported: s,
                    deep_sleep_active: if s {
                        self.deep_sleep_active
                    } else {
                        false
                    },
                    ..self
                },
                None,
            ),
            BatteryCommandOutput::DeepSleepSet(a) => (
                self,
                Some(
                    BatteryAction::LogDeepSleepSet(
                        SleepMode::spec_for(a && self.deep_sleep_supported),
                    ),
                ),
            ),
            BatteryCommandOutput::ChargeLimitSet(v) => (
                self,
                Some(BatteryAction::LogChargeLimitSet(v)),
            ),
            BatteryCommandOutput::TimerElapsed => (
                self,
                Some(BatteryAction::SetChargeLimit(80)),
            ),
            BatteryCommandOutput::Error(e) => (self, Some(BatteryAction::Report(e))),
        }
    }

    fn sleep_mode(deep: bool) -> (r: SleepMode)
        ensures
            r == SleepMode::spec_for(deep),
    {
        if deep {
            SleepMode::Deep
        } else {
            SleepMode::S2Idle
        }
    }

    /// Handles a user action. Maintenance mode switches the charge limit
    /// between 80 % and 100 %. Deep sleep can be switched on only where the
    /// firmware supports it; a change is stored and written to sysfs. A
    /// loaded profile's deep-sleep choice is applied where supported, without
    /// storing it again.
    pub fn update(&mut self, msg: BatteryMsg) -> (r: Vec<BatteryAction>)
        ensures
            (*final(self), r@) == old(self).spec_update(msg),
    {
        let mut actions: Vec<BatteryAction> = Vec::new();
        match msg {
            BatteryMsg::ToggleMaintenanceMode(active) => {
                if active == self.maintenance_mode_active {
                    assert(actions@ =~= Seq::<BatteryAction>::empty());
                    return actions;
                }
                self.maintenance_mode_active = active;
                let limit: u8 = if active {
                    80
                } else {
                    100
                };
                actions.push(BatteryAction::SetChargeLimit(limit));
            },
            BatteryMsg::TriggerOneShot => {
                actions.push(BatteryAction::StartOneShotCharge);
            },
            BatteryMsg::ToggleDeepSleep(active) => {
                if active && !self.deep_sleep_supported {
                    actions.push(BatteryAction::ReportDeepSleepUnsupported);
                    return actions;
                }
                if active == self.deep_sleep_active {
                    assert(actions@ =~= Seq::<BatteryAction>::empty());
                    return actions;
                }
                self.deep_sleep_active = active;
                actions.push(BatteryAction::SaveDeepSleep(active));
                actions.push(BatteryAction::WriteMemSleep(Self::sleep_mode(active)));
            },
            BatteryMsg::LoadProfile(active) => {
                if self.deep_sleep_active == active || !self.deep_sleep_supported {
                    assert(actions@ =~= Seq::<BatteryAction>::empty());
                    return actions;
                }
                self.deep_sleep_active = active;
                actions.push(BatteryAction::WriteMemSleep(Self::sleep_mode(active)));
            },
        }
        actions
    }

    /// Handles a reply. The start-up charge limit tells whether maintenance
    /// mode is on (anything but 100 %); an unsupported deep sleep is shown
    /// as off; when the one-shot day has passed the limit goes back to 80 %.
    pub fn update_cmd(&mut self, msg: BatteryCommandOutput) -> (r: Option<BatteryAction>)
        ensures
            (*final(self), r) == old(self).spec_update_cmd(msg),
    {
        match msg {
            BatteryCommandOutput::AsusdChecked(a) => {
                self.asusd_available = a;
                None
            },
            BatteryCommandOutput::InitValue(v) => {
                self.maintenance_mode_active = v != 100;
                None
            },
            BatteryCommandOutput::InitDeepSleep(a) => {
                self.deep_sleep_active = a;
                None
            },
            BatteryCommandOutput::DeepSleepSupported(s) => {
                self.deep_sleep_supported = s;
                if !s {
                    self.deep_sleep_active = false;
                }
                None
            },
            BatteryCommandOutput::DeepSleepSet(a) => Some(
                BatteryAction::LogDeepSleepSet(Self::sleep_mode(a && self.deep_sleep_supported)),
            ),
            BatteryCommandOutput::ChargeLimitSet(v) => Some(BatteryAction::LogChargeLimitSet(v)),
            BatteryCommandOutput::TimerElapsed => Some(BatteryAction::SetChargeLimit(80)),
            BatteryCommandOutput::Error(e) => Some(BatteryAction::Report(e)),
        }
    }

    /// Deep sleep is never shown as on where it is unsupported.
    pub open spec fn spec_sleep_consistent(self) -> bool {
        self.deep_sleep_active ==> self.deep_sleep_supported
    }
}

/// The deep-sleep state read from `/sys/power/mem_sleep`: deep sleep is
/// active when `[deep]` is listed (selected) and supported when `deep` is
/// listed at all.
pub fn mem_sleep_state(content: &str) -> (r: (bool, bool))
    ensures
        r == (spec_contains(content@, "[deep]"@), spec_contains(content@, "deep"@)),
{
    (contains(content, "[deep]"), contains(content, "deep"))
}

/// Switching maintenance mode and then reading the limit the daemon was
/// asked for shows the same maintenance state again.
pub proof fn lemma_maintenance_round_trip(page: BatteryModel, active: bool)
    requires
        active != page.maintenance_mode_active,
    ensures
        ({
            let (next, actions) = page.spec_update(BatteryMsg::ToggleMaintenanceMode(active));
            &&& actions == seq![BatteryAction::SetChargeLimit(spec_maintenance_limit(active))]
            &&& next.spec_update_cmd(
                BatteryCommandOutput::InitValue(spec_maintenance_limit(active)),
            ).0.maintenance_mode_active == active
        }),
{
}

/// Every user action keeps deep sleep off where it is unsupported.
pub proof fn lemma_update_keeps_sleep_consistent(page: BatteryModel, msg: BatteryMsg)
    requires
        page.spec_sleep_consistent(),
    ensures
        page.spec_update(msg).0.spec_sleep_consistent(),
{
}

/// Every reply but the raw start-up reading keeps deep sleep off where it is
/// unsupported, and learning that it is unsupported switches it off.
pub proof fn lemma_update_cmd_keeps_sleep_consistent(page: BatteryModel, msg: BatteryCommandOutput)
    requires
        page.spec_sleep_consistent() || msg matches BatteryCommandOutput::DeepSleepSupported(_),
        !(msg matches BatteryCommandOutput::InitDeepSleep(_)),
    ensures
        page.spec_update_cmd(msg).0.spec_sleep_consistent(),
{
}

/// A selected `[deep]` entry is also a listed `deep` entry, so the start-up
/// reading never shows deep sleep active but unsupported.
pub proof fn lemma_selected_deep_is_supported(content: Seq<char>)
    ensures
        spec_contains(content, "[deep]"@) ==> spec_contains(content, "deep"@),
{
    reveal_strlit("[deep]");
    reveal_strlit("deep");
    if spec_contains(content, "[deep]"@) {
        let i = choose|i: int| crate::text::spec_occurs_at(content, "[deep]"@, i);
        assert(content.subrange(i + 1, i + 5) =~= "[deep]"@.subrange(1, 5));
        assert("[deep]"@.subrange(1, 5) =~= "deep"@);
        assert(crate::text::spec_occurs_at(content, "deep"@, i + 1));
    }
}

/// Switching deep sleep, or loading a profile's deep-sleep choice, writes
/// `deep` to `mem_sleep` when the new choice is on and `s2idle` when it is
/// off, and the page then shows that same choice.
pub proof fn lemma_written_sleep_mode_follows_choice(page: BatteryModel, active: bool, load: bool)
    ensures
        ({
            let msg = if load {
                BatteryMsg::LoadProfile(active)
            } else {
                BatteryMsg::ToggleDeepSleep(active)
            };
            let (next, actions) = page.spec_update(msg);
            forall|i: int|
                0 <= i < actions.len() ==> (#[trigger] actions[i] matches BatteryAction::WriteMemSleep(m)
                    ==> (m == SleepMode::Deep) == active && (m == SleepMode::S2Idle) == !active
                    && next.deep_sleep_active == active)
        }),
{
}

} // verus!
