//! COSMIC panel settings: the values written to each panel's config files
//! and which config directories are panels.
use vstd::prelude::*;
use crate::text::{spec_starts_with, starts_with};

verus! {

/// The `autohide` value written for auto-hide on or off.
pub fn autohide_value(enabled: bool) -> (r: &'static str)
    ensures
        r@ == if enabled {
            "Some((wait_time: 1000, transition_time: 200, handle_size: 4, unhide_delay: 200))"@
        } else {
            "None"@
        },
{
    if enabled {
        "Some((wait_time: 1000, transition_time: 200, handle_size: 4, unhide_delay: 200))"
    } else {
        "None"
    }
}

/// The `opacity` value written for a transparent (`0.0`) or opaque (`1.0`)
/// panel.
pub fn opacity_value(transparent: bool) -> (r: &'static str)
    ensures
        r@ == if transparent {
            "0.0"@
        } else {
            "1.0"@
        },
{
    if transparent {
        "0.0"
    } else {
        "1.0"
    }
}

/// Whether a directory under `~/.config/cosmic` configures a panel: its
/// name starts with `com.system76.CosmicPanel.` and it is not a panel
/// button's.
pub fn is_panel_config_dir(name: &str) -> (r: bool)
    ensures
        r == (spec_starts_with(name@, "com.system76.CosmicPanel."@) && !spec_starts_with(
            name@,
            "com.system76.CosmicPanelButton"@,
        )),
{
    starts_with(name, "com.system76.CosmicPanel.") && !starts_with(
        name,
        "com.system76.CosmicPanelButton",
    )
}

} // verus!
