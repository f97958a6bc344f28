//! The home page's strip of thermal and graphics mode cards.
use vstd::prelude::*;
use crate::services::profiles::{FanProfile, GfxMode};

verus! {

/// The highlighted thermal profile and graphics mode.
#[derive(PartialEq, Eq, Structural, Clone, Copy)]
pub struct ModeStripModel {
    pub active_thermal: FanProfile,
    pub active_gpu: GfxMode,
}

/// User input on the strip.
#[derive(Debug)]
pub enum ModeStripMsg {
    SetThermal(FanProfile),
    SetGpu(GfxMode),
}

/// Replies of the daemons.
#[derive(Debug)]
pub enum ModeStripCmd {
    Init { thermal: FanProfile, gpu: GfxMode },
    Error(String),
}

/// What the strip asks its surroundings to do.
pub enum ModeStripAction {
    /// Store this profile number in the active settings profile.
    SaveFanProfile(u32),
    /// Store this mode number in the active settings profile.
    SaveGpuMode(u32),
    /// Redraw the strip.
    RebuildStrip,
    /// Ask the daemon for this profile (failures are ignored).
    SetFanProfile(FanProfile),
    /// Ask the daemon for this mode (failures are ignored).
    SetGpuMode(GfxMode),
    /// Log this error.
    LogError(String),
}

/// The start-up reply: the daemons' answers, with Balanced and Hybrid for a
/// failed query.
pub fn init_output(thermal: Result<FanProfile, String>, gpu: Result<GfxMode, String>) -> (r: ModeStripCmd)
    ensures
        r == (ModeStripCmd::Init {
            thermal: match thermal {
                Ok(p) => p,
                Err(_) => FanProfile::Balanced,
            },
            gpu: match gpu {
                Ok(m) => m,
                Err(_) => GfxMode::Hybrid,
            },
        }),
{
    let thermal = match thermal {
        Ok(p) => p,
        Err(_) => FanProfile::Balanced,
    };
    let gpu = match gpu {
        Ok(m) => m,
        Err(_) => GfxMode::Hybrid,
    };
    ModeStripCmd::Init { thermal, gpu }
}

impl ModeStripModel {
    /// The strip before the daemons answered: Balanced, and the saved mode.
    pub fn new(saved_gpu_mode: u32) -> (r: ModeStripModel)
        ensures
            r == (ModeStripModel {
                active_thermal: FanProfile::Balanced,
                active_gpu: GfxMode::spec_from_number(saved_gpu_mode),
            }),
    {
        ModeStripModel {
            active_thermal: FanProfile::Balanced,
            active_gpu: GfxMode::from_number(saved_gpu_mode),
        }
    }

    /// Handles a card click: the clicked profile or mode is highlighted,
    /// stored and requested, even when it already was the active one.
    pub fn update(&mut self, msg: ModeStripMsg) -> (r: Vec<ModeStripAction>)
        ensures
            match msg {
                ModeStripMsg::SetThermal(p) => {
                    &&& *final(self) == (ModeStripModel { active_thermal: p, ..*old(self) })
                    &&& r@ == seq![
                        ModeStripAction::SaveFanProfile(p.spec_number()),
                        ModeStripAction::RebuildStrip,
                        ModeStripAction::SetFanProfile(p),
                    ]
                },
                ModeStripMsg::SetGpu(m) => {
                    &&& *final(self) == (ModeStripModel { active_gpu: m, ..*old(self) })
                    &&& r@ == seq![
                        ModeStripAction::SaveGpuMode(m.spec_number()),
                        ModeStripAction::RebuildStrip,
                        ModeStripAction::SetGpuMode(m),
                    ]
                },
            },
    {
        let mut actions: Vec<ModeStripAction> = Vec::new();
        match msg {
            ModeStripMsg::SetThermal(p) => {
                self.active_thermal = p;
                actions.push(ModeStripAction::SaveFanProfile(p.number()));
                actions.push(ModeStripAction::RebuildStrip);
                actions.push(ModeStripAction::SetFanProfile(p));
            },
            ModeStripMsg::SetGpu(m) => {
                self.active_gpu = m;
                actions.push(ModeStripAction::SaveGpuMode(m.number()));
                actions.push(ModeStripAction::RebuildStrip);
                actions.push(ModeStripAction::SetGpuMode(m));
            },
        }
        actions
    }

    /// Handles a reply: the start-up answers are highlighted; errors are
    /// logged.
    pub fn update_cmd(&mut self, msg: ModeStripCmd) -> (r: ModeStripAction)
        ensures
            match msg {
                ModeStripCmd::Init { thermal, gpu } => {
                    &&& *final(self) == (ModeStripModel { active_thermal: thermal, active_gpu: gpu })
                    &&& r == ModeStripAction::RebuildStrip
                },
                ModeStripCmd::Error(e) => *final(self) == *old(self) && r
                    == ModeStripAction::LogError(e),
            },
    {
        match msg {
            ModeStripCmd::Init { thermal, gpu } => {
                self.active_thermal = thermal;
                self.active_gpu = gpu;
                ModeStripAction::RebuildStrip
            },
            ModeStripCmd::Error(e) => ModeStripAction::LogError(e),
        }
    }

    /// The thermal cards (Quiet, Balanced, Performance), each with whether
    /// it is highlighted.
    pub fn thermal_cards(&self) -> (r: Vec<(FanProfile, bool)>)
        ensures
            r@ == seq![
                (FanProfile::Quiet, self.active_thermal == FanProfile::Quiet),
                (FanProfile::Balanced, self.active_thermal == FanProfile::Balanced),
                (FanProfile::Performance, self.active_thermal == FanProfile::Performance),
            ],
    {
        let mut r: Vec<(FanProfile, bool)> = Vec::new();
        r.push((FanProfile::Quiet, self.active_thermal == FanProfile::Quiet));
        r.push((FanProfile::Balanced, self.active_thermal == FanProfile::Balanced));
        r.push((FanProfile::Performance, self.active_thermal == FanProfile::Performance));
        r
    }

    /// The graphics cards (Integrated, Hybrid, Dedicated), each with whether
    /// it is highlighted.
    pub fn gpu_cards(&self) -> (r: Vec<(GfxMode, bool)>)
        ensures
            r@ == seq![
                (GfxMode::Integrated, self.active_gpu == GfxMode::Integrated),
                (GfxMode::Hybrid, self.active_gpu == GfxMode::Hybrid),
                (GfxMode::AsusMuxDiscreet, self.active_gpu == GfxMode::AsusMuxDiscreet),
            ],
    {
        let mut r: Vec<(GfxMode, bool)> = Vec::new();
        r.push((GfxMode::Integrated, self.active_gpu == GfxMode::Integrated));
        r.push((GfxMode::Hybrid, self.active_gpu == GfxMode::Hybrid));
        r.push((GfxMode::AsusMuxDiscreet, self.active_gpu == GfxMode::AsusMuxDiscreet));
        r
    }
}

} // verus!
