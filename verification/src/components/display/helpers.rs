//! Display colour profiles.
use vstd::prelude::*;
use std::path::PathBuf;
use crate::text::owned;

verus! {

/// The output name of the built-in laptop display.
pub const DISPLAY_NAME: &'static str = "eDP-1";

/// The bundled ICC profile files.
pub const ICM_FILES: [&'static str; 3] = ["Utu_sRGB.icm", "Utu_DCIP3.icm", "Utu_DisplayP3.icm"];

/// Resetting the display colour profile is not available on GNOME yet: the
/// result is always this error.
pub fn reset_icm_profile() -> (r: Result<(), String>)
    ensures
        r matches Err(e) && e@ == "ICC profile reset not yet supported on GNOME (colord support planned)"@,
{
    Err(owned("ICC profile reset not yet supported on GNOME (colord support planned)"))
}

/// Applying a colour profile is not available on GNOME yet: the result is
/// always this error, whatever the file and the profile directory.
pub fn apply_icm_profile(_filename: &str, _base_path: &PathBuf) -> (r: Result<(), String>)
    ensures
        r matches Err(e) && e@ == "ICC profile application not yet supported on GNOME (colord support planned)"@,
{
    Err(owned("ICC profile application not yet supported on GNOME (colord support planned)"))
}

} // verus!
