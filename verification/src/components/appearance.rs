//! The accent colour swatches.
use vstd::prelude::*;
use crate::services::theme::spec_accent_for_lowercase;
use crate::text::{push_str, str_eq};

verus! {

/// The offered accents: translation key, colour, identifier.
pub const ACCENT_PRESETS: [(&'static str, &'static str, &'static str); 3] = [
    ("appearance_amber", "#e8a800", "amber"),
    ("appearance_crimson", "#e8002d", "crimson"),
    ("appearance_teal", "#00bcd4", "teal"),
];

/// The appearance page: the active accent colour.
pub struct AppearanceModel {
    pub active_accent: String,
}

/// User input on the appearance page.
#[derive(Debug)]
pub enum AppearanceMsg {
    /// The user clicked the swatch of this colour.
    SetAccent(String),
}

/// What the page asks its surroundings to do.
pub enum AppearanceAction {
    /// Store this colour as the accent in the settings.
    SaveAccent(String),
    /// Load the accent CSS for this colour.
    ApplyAccent(String),
    /// Redraw the swatches.
    RebuildSwatches,
}

impl AppearanceModel {
    /// Handles a swatch click: the active colour again does nothing; another
    /// colour becomes active, is stored, applied and the swatches redrawn.
    pub fn update(&mut self, msg: AppearanceMsg) -> (r: Vec<AppearanceAction>)
        ensures
            match msg {
                AppearanceMsg::SetAccent(hex) => if hex@ == old(self).active_accent@ {
                    final(self).active_accent@ == old(self).active_accent@ && r@.len() == 0
                } else {
                    &&& final(self).active_accent@ == hex@
                    &&& r@.len() == 3
                    &&& r@[0] matches AppearanceAction::SaveAccent(h) && h@ == hex@
                    &&& r@[1] matches AppearanceAction::ApplyAccent(h) && h@ == hex@
                    &&& r@[2] matches AppearanceAction::RebuildSwatches
                },
            },
    {
        let mut actions: Vec<AppearanceAction> = Vec::new();
        match msg {
            AppearanceMsg::SetAccent(hex) => {
                if str_eq(hex.as_str(), self.active_accent.as_str()) {
                    return actions;
                }
                self.active_accent = hex.clone();
                actions.push(AppearanceAction::SaveAccent(hex.clone()));
                actions.push(AppearanceAction::ApplyAccent(hex));
                actions.push(AppearanceAction::RebuildSwatches);
            },
        }
        actions
    }

    /// Whether the swatch of `hex` is highlighted: it is the active colour.
    pub fn swatch_active(&self, hex: &str) -> (r: bool)
        ensures
            r == (hex@ == self.active_accent@),
    {
        str_eq(hex, self.active_accent.as_str())
    }
}

/// The CSS that paints a swatch button in its colour.
pub open spec fn spec_swatch_css(hex: Seq<char>) -> Seq<char> {
    "button.accent-swatch { background-color: "@ + hex
        + "; min-width: 48px; min-height: 48px; border-radius: 50%; padding: 0; }"@
}

/// The CSS of a swatch button in the colour `hex`.
pub fn swatch_css(hex: &str) -> (r: String)
    ensures
        r@ == spec_swatch_css(hex@),
{
    let mut s = String::new();
    push_str(&mut s, "button.accent-swatch { background-color: ");
    push_str(&mut s, hex);
    push_str(&mut s, "; min-width: 48px; min-height: 48px; border-radius: 50%; padding: 0; }");
    assert(s@ =~= spec_swatch_css(hex@));
    s
}

/// The accent picked for any laptop model is one of the offered swatches,
/// so the matching swatch is highlighted.
pub proof fn lemma_detected_accent_is_offered(name: Seq<char>)
    ensures
        exists|i: int| 0 <= i < 3 && ACCENT_PRESETS[i].1@ == spec_accent_for_lowercase(name),
{
    let a = spec_accent_for_lowercase(name);
    if a == ACCENT_PRESETS[0].1@ {
    } else if a == ACCENT_PRESETS[1].1@ {
    } else {
        assert(a == ACCENT_PRESETS[2].1@);
    }
}

} // verus!
