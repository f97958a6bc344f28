//! The Fn-lock choice, applied through the kernel command line in GRUB.
use vstd::prelude::*;
use crate::text::push_str;

verus! {

/// The shell script before the `asus_wmi.fnlock_default` value: it drops any
/// earlier setting and appends a new one to `GRUB_CMDLINE_LINUX_DEFAULT`.
pub open spec fn spec_grub_script_head() -> Seq<char> {
    r#"sed -i 's/ asus_wmi\.fnlock_default=[^ "]*//g' /etc/default/grub && \
sed -i 's/\(GRUB_CMDLINE_LINUX_DEFAULT="[^"]*\)"/\1 asus_wmi.fnlock_default="#@
}

/// The shell script after the value: it closes the quote and regenerates
/// the GRUB configuration.
pub open spec fn spec_grub_script_tail() -> Seq<char> {
    r#""/g' /etc/default/grub && \
update-grub"#@
}

/// The script that makes the Fn keys locked (`fnlock_default=0`) or normal
/// (`fnlock_default=1`) from the next boot on.
pub open spec fn spec_grub_script(locked: bool) -> Seq<char> {
    spec_grub_script_head() + (if locked {
        "0"@
    } else {
        "1"@
    }) + spec_grub_script_tail()
}

/// The root shell script that stores the Fn-lock choice in GRUB.
pub fn build_grub_script(locked: bool) -> (r: String)
    ensures
        r@ == spec_grub_script(locked),
{
    let mut s = String::new();
    push_str(
        &mut s,
        r#"sed -i 's/ asus_wmi\.fnlock_default=[^ "]*//g' /etc/default/grub && \
sed -i 's/\(GRUB_CMDLINE_LINUX_DEFAULT="[^"]*\)"/\1 asus_wmi.fnlock_default="#,
    );
    if locked {
        push_str(&mut s, "0");
    } else {
        push_str(&mut s, "1");
    }
    push_str(&mut s, r#""/g' /etc/default/grub && \
update-grub"#);
    assert(s@ =~= spec_grub_script(locked));
    s
}

/// The Fn key page: the chosen mode and whether `update-grub` exists.
#[derive(PartialEq, Eq, Structural, Clone, Copy)]
pub struct FnKeyModel {
    pub locked: bool,
    pub update_grub_available: bool,
}

/// User input on the Fn key page.
#[derive(Debug)]
pub enum FnKeyMsg {
    ToggleLocked(bool),
    LoadProfile(bool),
}

/// Replies of background work.
#[derive(Debug)]
pub enum FnKeyCommandOutput {
    UpdateGrubChecked(bool),
    /// The script ran; the choice is now stored in GRUB.
    Applied(bool),
    Error(String),
}

/// What the page asks its surroundings to do.
pub enum FnKeyAction {
    /// Redraw the two cards.
    RebuildCards,
    /// Run this script as root.
    RunGrubScript(String),
    /// Store the choice in the active settings profile.
    SaveLocked(bool),
    /// Say that the choice was saved (locked or normal).
    ShowSaved(bool),
    /// Say that saving failed, with this error.
    ShowSaveError(String),
    /// Pass this error message on to the window.
    Report(String),
}

impl FnKeyModel {
    /// Handles a user action: a different choice is shown and its script is
    /// run; the current choice again does nothing.
    pub fn update(&mut self, msg: FnKeyMsg) -> (r: Vec<FnKeyAction>)
        ensures
            ({
                let locked = match msg {
                    FnKeyMsg::ToggleLocked(l) => l,
                    FnKeyMsg::LoadProfile(l) => l,
                };
                if locked == old(self).locked {
                    *final(self) == *old(self) && r@.len() == 0
                } else {
                    &&& *final(self) == (FnKeyModel { locked, ..*old(self) })
                    &&& r@.len() == 2
                    &&& r@[0] == FnKeyAction::RebuildCards
                    &&& r@[1] matches FnKeyAction::RunGrubScript(script) && script@
                        == spec_grub_script(locked)
                }
            }),
    {
        let locked = match msg {
            FnKeyMsg::ToggleLocked(l) => l,
            FnKeyMsg::LoadProfile(l) => l,
        };
        let mut actions: Vec<FnKeyAction> = Vec::new();
        if locked == self.locked {
            return actions;
        }
        self.locked = locked;
        actions.push(FnKeyAction::RebuildCards);
        actions.push(FnKeyAction::RunGrubScript(build_grub_script(locked)));
        actions
    }

    /// Handles a reply. Finding `update-grub` enables the cards; a finished
    /// script stores the choice and says so; an error is shown and passed on.
    pub fn update_cmd(&mut self, msg: FnKeyCommandOutput) -> (r: Vec<FnKeyAction>)
        ensures
            match msg {
                FnKeyCommandOutput::UpdateGrubChecked(ok) => {
                    &&& *final(self) == (FnKeyModel { update_grub_available: ok, ..*old(self) })
                    &&& r@ == seq![FnKeyAction::RebuildCards]
                },
                FnKeyCommandOutput::Applied(locked) => {
                    &&& *final(self) == *old(self)
                    &&& r@ == seq![FnKeyAction::SaveLocked(locked), FnKeyAction::ShowSaved(locked)]
                },
                FnKeyCommandOutput::Error(e) => {
                    &&& *final(self) == *old(self)
                    &&& r@ == seq![FnKeyAction::ShowSaveError(e), FnKeyAction::Report(e)]
                },
            },
    {
        let mut actions: Vec<FnKeyAction> = Vec::new();
        match msg {
            FnKeyCommandOutput::UpdateGrubChecked(ok) => {
                self.update_grub_available = ok;
                actions.push(FnKeyAction::RebuildCards);
            },
            FnKeyCommandOutput::Applied(locked) => {
                actions.push(FnKeyAction::SaveLocked(locked));
                actions.push(FnKeyAction::ShowSaved(locked));
            },
            FnKeyCommandOutput::Error(e) => {
                actions.push(FnKeyAction::ShowSaveError(e.clone()));
                actions.push(FnKeyAction::Report(e));
            },
        }
        actions
    }

    /// The two cards, locked first: for each, the choice it stands for,
    /// whether it is highlighted, and whether it can be clicked (only when
    /// `update-grub` exists).
    pub fn cards(&self) -> (r: Vec<(bool, bool, bool)>)
        ensures
            r@ == seq![
                (true, self.locked, self.update_grub_available),
                (false, !self.locked, self.update_grub_available),
            ],
    {
        let mut r: Vec<(bool, bool, bool)> = Vec::new();
        r.push((true, self.locked, self.update_grub_available));
        r.push((false, !self.locked, self.update_grub_available));
        r
    }
}

} // verus!
