//! The EasyEffects sound profiles.
use vstd::prelude::*;
use std::path::PathBuf;
use crate::text::{owned, push_str};

verus! {

#[verifier::external_type_specification]
#[verifier::external_body]
pub struct ExPathBuf(PathBuf);

/// The card index of "no preset": EasyEffects is bypassed.
pub const NONE_IDX: u32 = 2;

/// The card index of a user-chosen preset file.
pub const CUSTOM_IDX: u32 = 6;

/// The bundled presets, in the order of their cards (skipping "none").
pub const PRESET_NAMES: [&'static str; 5] = ["Movie", "Music", "Perfect_EQ", "Video", "Voice"];

/// The preset a card index other than "none" and "custom" loads.
pub open spec fn spec_preset_index(idx: u32) -> int {
    if idx < NONE_IDX {
        idx as int
    } else {
        idx - 1
    }
}

/// One EasyEffects command line.
pub enum EasyEffectsCommand {
    /// `easyeffects -b 1`: bypass all effects.
    BypassOn,
    /// `easyeffects -b 2`: stop bypassing.
    BypassOff,
    /// `easyeffects -l <name>`: load a preset.
    LoadPreset(String),
}

/// The arguments of an EasyEffects command.
pub fn easyeffects_args(cmd: &EasyEffectsCommand) -> (r: Vec<String>)
    ensures
        match cmd {
            EasyEffectsCommand::BypassOn => r@.len() == 2 && r@[0]@ == "-b"@ && r@[1]@ == "1"@,
            EasyEffectsCommand::BypassOff => r@.len() == 2 && r@[0]@ == "-b"@ && r@[1]@ == "2"@,
            EasyEffectsCommand::LoadPreset(name) => r@.len() == 2 && r@[0]@ == "-l"@ && r@[1]@
                == name@,
        },
{
    let mut r: Vec<String> = Vec::new();
    match cmd {
        EasyEffectsCommand::BypassOn => {
            r.push(owned("-b"));
            r.push(owned("1"));
        },
        EasyEffectsCommand::BypassOff => {
            r.push(owned("-b"));
            r.push(owned("2"));
        },
        EasyEffectsCommand::LoadPreset(name) => {
            r.push(owned("-l"));
            r.push(name.clone());
        },
    }
    r
}

/// The commands that switch EasyEffects to a card (run after making sure
/// EasyEffects runs): "none" bypasses; "custom" loads the named preset, if
/// one is named; every other card stops bypassing and loads its bundled
/// preset.
pub fn easyeffects_commands(idx: u32, custom_name: Option<String>) -> (r: Vec<EasyEffectsCommand>)
    requires
        idx <= CUSTOM_IDX,
    ensures
        if idx == NONE_IDX {
            r@ == seq![EasyEffectsCommand::BypassOn]
        } else if idx == CUSTOM_IDX {
            match custom_name {
                Some(name) => r@ == seq![
                    EasyEffectsCommand::BypassOff,
                    EasyEffectsCommand::LoadPreset(name),
                ],
                None => r@.len() == 0,
            }
        } else {
            &&& r@.len() == 2
            &&& r@[0] == EasyEffectsCommand::BypassOff
            &&& r@[1] matches EasyEffectsCommand::LoadPreset(name) && name@
                == PRESET_NAMES[spec_preset_index(idx)]@
        },
{
    let mut r: Vec<EasyEffectsCommand> = Vec::new();
    if idx == NONE_IDX {
        r.push(EasyEffectsCommand::BypassOn);
    } else if idx == CUSTOM_IDX {
        if let Some(name) = custom_name {
            r.push(EasyEffectsCommand::BypassOff);
            r.push(EasyEffectsCommand::LoadPreset(name));
        }
    } else {
        r.push(EasyEffectsCommand::BypassOff);
        let preset_idx = if idx < NONE_IDX {
            idx
        } else {
            idx - 1
        } as usize;
        r.push(EasyEffectsCommand::LoadPreset(owned(PRESET_NAMES[preset_idx])));
    }
    r
}

/// The file name a preset is stored under: `<name>.json`.
pub fn preset_file_name(name: &str) -> (r: String)
    ensures
        r@ == name@ + ".json"@,
{
    let mut s = String::new();
    push_str(&mut s, name);
    push_str(&mut s, ".json");
    s
}

/// The file stem of a path (`Path::file_stem`, lossily turned into text),
/// or `None` when the path has no file name. It depends on the path alone.
pub uninterp spec fn spec_file_stem_lossy(path: PathBuf) -> Option<Seq<char>>;

/// `Path::file_stem`, lossily turned into a `String`: claimed to return
/// exactly `spec_file_stem_lossy` of the path; what that stem is for a given
/// path is left to std.
#[verifier::external_body]
fn file_stem_lossy(path: &PathBuf) -> (r: Option<String>)
    ensures
        match r {
            Some(s) => spec_file_stem_lossy(*path) == Some(s@),
            None => spec_file_stem_lossy(*path) is None,
        },
{
    path.file_stem().map(|s| s.to_string_lossy().to_string())
}

/// The preset name for a looked-up file stem: the stem itself, or an error
/// when the path has none.
pub fn stem_result(stem: Option<String>) -> (r: Result<String, String>)
    ensures
        match stem {
            Some(s) => r == Ok::<String, String>(s),
            None => r matches Err(e) && e@ == "Invalid file name"@,
        },
{
    match stem {
        Some(s) => Ok(s),
        None => Err(owned("Invalid file name")),
    }
}

/// The preset name of a chosen preset file: its file stem, or an error for a
/// path without one (see `stem_result`).
pub fn extract_file_stem(path: &PathBuf) -> (r: Result<String, String>)
    ensures
        r is Ok <==> spec_file_stem_lossy(*path) is Some,
        r matches Ok(s) ==> spec_file_stem_lossy(*path) == Some(s@),
        r matches Err(e) ==> e@ == "Invalid file name"@,
{
    stem_result(file_stem_lossy(path))
}

/// The sound page: whether EasyEffects is installed, the highlighted card,
/// and the card to return to when choosing a custom preset is cancelled.
#[derive(PartialEq, Eq, Structural, Clone, Copy)]
pub struct SoundModesModel {
    pub ee_installed: bool,
    pub current_profile: u32,
    pub previous_profile: u32,
}

/// User input on the sound page.
#[derive(Debug)]
pub enum SoundModesMsg {
    ChangeProfile(u32),
    CustomPresetPathSelected(PathBuf),
    CustomCancelled(u32),
    LoadProfile(u32),
}

/// Replies of background work.
#[derive(Debug)]
pub enum AudioCommandOutput {
    EeChecked(bool),
    PresetsInstalled,
    ProfileSet(u32),
    CustomPresetLoaded(String),
    Error(String),
}

/// What the page asks its surroundings to do.
pub enum SoundModesAction {
    /// Ask for a preset file; on cancel, go back to this card.
    OpenCustomDialog(u32),
    /// Store this card index in the active settings profile.
    SaveAudioProfile(u32),
    /// Switch EasyEffects to this card.
    SetEasyEffectsProfile(u32),
    /// Copy this preset file into EasyEffects and load it.
    LoadCustomPreset(PathBuf),
    /// Treat the choice as cancelled, going back to this card.
    CancelCustom(u32),
    /// Redraw the cards.
    RebuildCards,
    /// Log that this card is in effect.
    LogProfileSet(u32),
    /// Log that this custom preset is in effect.
    LogCustomPresetLoaded(String),
    /// Pass this error message on to the window.
    Report(String),
}

impl SoundModesModel {
    /// The page before EasyEffects was found, showing the saved card.
    pub fn new(saved_profile: u32) -> (r: SoundModesModel)
        ensures
            r == (SoundModesModel {
                ee_installed: false,
                current_profile: saved_profile,
                previous_profile: saved_profile,
            }),
    {
        SoundModesModel {
            ee_installed: false,
            current_profile: saved_profile,
            previous_profile: saved_profile,
        }
    }

    /// The page after a card click or a loaded profile, and what it asks
    /// for.
    pub open spec fn spec_select(self, idx: u32) -> (SoundModesModel, Seq<SoundModesAction>) {
        if idx == self.current_profile {
            (self, Seq::empty())
        } else if idx == CUSTOM_IDX {
            (
                SoundModesModel { current_profile: CUSTOM_IDX, ..self },
                seq![SoundModesAction::OpenCustomDialog(self.current_profile)],
            )
        } else {
            (
                SoundModesModel { previous_profile: self.current_profile, current_profile: idx, ..self },
                seq![
                    SoundModesAction::SaveAudioProfile(idx),
                    SoundModesAction::SetEasyEffectsProfile(idx),
                ],
            )
        }
    }

    /// What a chosen preset file leads to, given whether it has a file stem:
    /// without one the choice is cancelled back to the previous card; with
    /// one, "custom" is stored and the file loaded.
    pub fn custom_path_actions(&self, has_stem: bool, path: PathBuf) -> (r: Vec<SoundModesAction>)
        ensures
            r@ == if has_stem {
                seq![
                    SoundModesAction::SaveAudioProfile(CUSTOM_IDX),
                    SoundModesAction::LoadCustomPreset(path),
                ]
            } else {
                seq![SoundModesAction::CancelCustom(self.previous_profile)]
            },
    {
        let mut r: Vec<SoundModesAction> = Vec::new();
        if has_stem {
            r.push(SoundModesAction::SaveAudioProfile(CUSTOM_IDX));
            r.push(SoundModesAction::LoadCustomPreset(path));
        } else {
            r.push(SoundModesAction::CancelCustom(self.previous_profile));
        }
        r
    }

    /// Handles a user action. A click on another card switches to it (for
    /// "custom", by asking for a file first); a chosen file is loaded if it
    /// has a name; a cancel goes back to the given card; a loaded profile is
    /// applied once EasyEffects is installed.
    pub fn update(&mut self, msg: SoundModesMsg) -> (r: Vec<SoundModesAction>)
        ensures
            match msg {
                SoundModesMsg::ChangeProfile(idx) => (*final(self), r@) == old(self).spec_select(
                    idx,
                ),
                SoundModesMsg::CustomPresetPathSelected(path) => {
                    &&& *final(self) == *old(self)
                    &&& r@ == if spec_file_stem_lossy(path) is Some {
                        seq![
                            SoundModesAction::SaveAudioProfile(CUSTOM_IDX),
                            SoundModesAction::LoadCustomPreset(path),
                        ]
                    } else {
                        seq![SoundModesAction::CancelCustom(old(self).previous_profile)]
                    }
                },
                SoundModesMsg::CustomCancelled(previous) => {
                    &&& *final(self) == (SoundModesModel { current_profile: previous, ..*old(self) })
                    &&& r@ == seq![
                        SoundModesAction::RebuildCards,
                        SoundModesAction::SaveAudioProfile(previous),
                    ]
                },
                SoundModesMsg::LoadProfile(idx) => if !old(self).ee_installed {
                    *final(self) == *old(self) && r@.len() == 0
                } else {
                    &&& *final(self) == (SoundModesModel { current_profile: idx, ..*old(self) })
                    &&& r@ == seq![
                        SoundModesAction::RebuildCards,
                        SoundModesAction::SetEasyEffectsProfile(idx),
                    ]
                },
            },
    {
        let mut actions: Vec<SoundModesAction> = Vec::new();
        match msg {
            SoundModesMsg::ChangeProfile(idx) => {
                if idx == self.current_profile {
                    assert(actions@ =~= Seq::<SoundModesAction>::empty());
                    return actions;
                }
                if idx == CUSTOM_IDX {
                    let previous = self.current_profile;
                    self.current_profile = CUSTOM_IDX;
                    actions.push(SoundModesAction::OpenCustomDialog(previous));
                    return actions;
                }
                self.previous_profile = self.current_profile;
                self.current_profile = idx;
                actions.push(SoundModesAction::SaveAudioProfile(idx));
                actions.push(SoundModesAction::SetEasyEffectsProfile(idx));
            },
            SoundModesMsg::CustomPresetPathSelected(path) => {
                let has_stem = extract_file_stem(&path).is_ok();
                return self.custom_path_actions(has_stem, path);
            },
            SoundModesMsg::CustomCancelled(previous) => {
                self.current_profile = previous;
                actions.push(SoundModesAction::RebuildCards);
                actions.push(SoundModesAction::SaveAudioProfile(previous));
            },
            SoundModesMsg::LoadProfile(idx) => {
                if !self.ee_installed {
                    return actions;
                }
                self.current_profile = idx;
                actions.push(SoundModesAction::RebuildCards);
                actions.push(SoundModesAction::SetEasyEffectsProfile(idx));
            },
        }
        actions
    }

    /// Handles a reply.
    pub fn update_cmd(&mut self, msg: AudioCommandOutput) -> (r: Option<SoundModesAction>)
        ensures
            match msg {
                AudioCommandOutput::EeChecked(installed) => {
                    &&& *final(self) == (SoundModesModel { ee_installed: installed, ..*old(self) })
                    &&& r == Some(SoundModesAction::RebuildCards)
                },
                AudioCommandOutput::PresetsInstalled => *final(self) == *old(self) && r is None,
                AudioCommandOutput::ProfileSet(idx) => *final(self) == *old(self) && r == Some(
                    SoundModesAction::LogProfileSet(idx),
                ),
                AudioCommandOutput::CustomPresetLoaded(name) => *final(self) == *old(self) && r
                    == Some(SoundModesAction::LogCustomPresetLoaded(name)),
                AudioCommandOutput::Error(e) => *final(self) == *old(self) && r == Some(
                    SoundModesAction::Report(e),
                ),
            },
    {
        match msg {
            AudioCommandOutput::EeChecked(installed) => {
                self.ee_installed = installed;
                Some(SoundModesAction::RebuildCards)
            },
            AudioCommandOutput::PresetsInstalled => None,
            AudioCommandOutput::ProfileSet(idx) => Some(SoundModesAction::LogProfileSet(idx)),
            AudioCommandOutput::CustomPresetLoaded(name) => Some(
                SoundModesAction::LogCustomPresetLoaded(name),
            ),
            AudioCommandOutput::Error(e) => Some(SoundModesAction::Report(e)),
        }
    }

    /// The seven cards in display order (film, music, none, optimised,
    /// video, voice, custom): each card's index, whether it is highlighted,
    /// and whether it can be clicked (only with EasyEffects installed).
    pub fn cards(&self) -> (r: Vec<(u32, bool, bool)>)
        ensures
            r@.len() == 7,
            forall|i: int|
                0 <= i < 7 ==> #[trigger] r@[i] == (i as u32, i == self.current_profile as int, self.ee_installed),
    {
        let mut r: Vec<(u32, bool, bool)> = Vec::new();
        let mut i: u32 = 0;
        while i < 7
            invariant
                i <= 7,
                r@.len() == i,
                forall|k: int|
                    0 <= k < i ==> #[trigger] r@[k] == (k as u32, k == self.current_profile as int, self.ee_installed),
            decreases 7 - i,
        {
            r.push((i, i == self.current_profile, self.ee_installed));
            i += 1;
        }
        r
    }
}

/// Some card loads the bundled preset at index `p`.
pub open spec fn spec_has_preset_card(p: int) -> bool {
    exists|idx: u32|
        idx <= CUSTOM_IDX && idx != NONE_IDX && idx != CUSTOM_IDX && #[trigger] spec_preset_index(idx)
            == p
}

/// Every card but "none" and "custom" loads a different bundled preset, and
/// every bundled preset has a card.
pub proof fn lemma_preset_cards_cover_presets()
    ensures
        forall|idx: u32| idx <= CUSTOM_IDX && idx != NONE_IDX && idx != CUSTOM_IDX ==> 0 <= #[trigger] spec_preset_index(idx) < 5,
        forall|a: u32, b: u32|
            a <= CUSTOM_IDX && a != NONE_IDX && a != CUSTOM_IDX && b <= CUSTOM_IDX && b != NONE_IDX && b != CUSTOM_IDX
                && #[trigger] spec_preset_index(a) == #[trigger] spec_preset_index(b) ==> a == b,
        forall|p: int| 0 <= p < 5 ==> #[trigger] spec_has_preset_card(p),
{
    assert forall|p: int| 0 <= p < 5 implies #[trigger] spec_has_preset_card(p) by {
        if p < 2 {
            assert(spec_preset_index(p as u32) == p);
        } else {
            assert(spec_preset_index((p + 1) as u32) == p);
        }
    }
}

/// Clicking the same card twice acts once.
pub proof fn lemma_select_twice_acts_once(page: SoundModesModel, idx: u32)
    ensures
        ({
            let (once, _) = page.spec_select(idx);
            once.spec_select(idx) == (once, Seq::<SoundModesAction>::empty())
        }),
{
}

} // verus!
