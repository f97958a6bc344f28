//! The fan profiles of the ASUS daemon and the graphics modes of the
//! graphics switching daemon, with the numbers under which the settings file
//! stores them.
use vstd::prelude::*;

verus! {

/// A platform (fan) profile.
#[derive(Debug, Clone, Copy, PartialEq, Eq, Structural)]
pub enum FanProfile {
    Balanced,
    Performance,
    Quiet,
}

impl FanProfile {
    pub open spec fn spec_number(self) -> u32 {
        match self {
            FanProfile::Balanced => 0,
            FanProfile::Performance => 1,
            FanProfile::Quiet => 2,
        }
    }

    pub open spec fn spec_from_number(v: u32) -> FanProfile {
        if v == 1 {
            FanProfile::Performance
        } else if v == 2 {
            FanProfile::Quiet
        } else {
            FanProfile::Balanced
        }
    }

    /// The number stored in the settings file for this profile.
    pub fn number(self) -> (r: u32)
        ensures
            r == self.spec_number(),
    {
        match self {
            FanProfile::Balanced => 0,
            FanProfile::Performance => 1,
            FanProfile::Quiet => 2,
        }
    }

    /// The profile a stored number stands for; unknown numbers read as
    /// `Balanced`.
    pub fn from_number(v: u32) -> (r: FanProfile)
        ensures
            r == FanProfile::spec_from_number(v),
    {
        if v == 1 {
            FanProfile::Performance
        } else if v == 2 {
            FanProfile::Quiet
        } else {
            FanProfile::Balanced
        }
    }
}

/// Storing a profile and reading it back gives the same profile.
pub proof fn lemma_fan_profile_number_round_trip(p: FanProfile)
    ensures
        FanProfile::spec_from_number(p.spec_number()) == p,
{
}

/// A graphics mode.
#[derive(Debug, Clone, Copy, PartialEq, Eq, Structural)]
pub enum GfxMode {
    Hybrid,
    Integrated,
    NvidiaNoModeset,
    Vfio,
    AsusEgpu,
    AsusMuxDiscreet,
    NoMode,
}

impl GfxMode {
    pub open spec fn spec_number(self) -> u32 {
        match self {
            GfxMode::Hybrid => 0,
            GfxMode::Integrated => 1,
            GfxMode::NvidiaNoModeset => 2,
            GfxMode::Vfio => 3,
            GfxMode::AsusEgpu => 4,
            GfxMode::AsusMuxDiscreet => 5,
            GfxMode::NoMode => 6,
        }
    }

    pub open spec fn spec_from_number(v: u32) -> GfxMode {
        if v == 1 {
            GfxMode::Integrated
        } else if v == 2 {
            GfxMode::NvidiaNoModeset
        } else if v == 3 {
            GfxMode::Vfio
        } else if v == 4 {
            GfxMode::AsusEgpu
        } else if v == 5 {
            GfxMode::AsusMuxDiscreet
        } else if v == 6 {
            GfxMode::NoMode
        } else {
            GfxMode::Hybrid
        }
    }

    /// The number stored in the settings file for this mode.
    pub fn number(self) -> (r: u32)
        ensures
            r == self.spec_number(),
    {
        match self {
            GfxMode::Hybrid => 0,
            GfxMode::Integrated => 1,
            GfxMode::NvidiaNoModeset => 2,
            GfxMode::Vfio => 3,
            GfxMode::AsusEgpu => 4,
            GfxMode::AsusMuxDiscreet => 5,
            GfxMode::NoMode => 6,
        }
    }

    /// The mode a stored number stands for; unknown numbers read as
    /// `Hybrid`.
    pub fn from_number(v: u32) -> (r: GfxMode)
        ensures
            r == GfxMode::spec_from_number(v),
    {
        if v == 1 {
            GfxMode::Integrated
        } else if v == 2 {
            GfxMode::NvidiaNoModeset
        } else if v == 3 {
            GfxMode::Vfio
        } else if v == 4 {
            GfxMode::AsusEgpu
        } else if v == 5 {
            GfxMode::AsusMuxDiscreet
        } else if v == 6 {
            GfxMode::NoMode
        } else {
            GfxMode::Hybrid
        }
    }
}

/// Storing a graphics mode and reading it back gives the same mode.
pub proof fn lemma_gfx_mode_number_round_trip(m: GfxMode)
    ensures
        GfxMode::spec_from_number(m.spec_number()) == m,
{
}

} // verus!
