//! The APU memory (VRAM carve-out) selector.
use vstd::prelude::*;

verus! {

/// The APU memory page: whether the daemon offers the setting, the current
/// size, and the sizes it offers (0 means automatic).
pub struct ApuMemModel {
    pub available: bool,
    pub current_value: i32,
    pub display_options: Vec<i32>,
}

/// User input on the APU memory page.
#[derive(Debug)]
pub enum ApuMemMsg {
    /// The user picked the option at this index.
    ChangeValue(usize),
    /// A saved profile set was loaded.
    LoadProfile(i32),
}

/// Replies of the ASUS daemon.
#[derive(Debug)]
pub enum ApuMemCommandOutput {
    NotAvailable,
    Init(Vec<i32>, i32),
    ValueSet(i32),
    Error(String),
}

/// What the page asks its surroundings to do.
pub enum ApuMemAction {
    /// Highlight the pill of this value, if it has one.
    SyncPills(i32),
    /// Ask the daemon to use this size.
    SetApuMem(i32),
    /// Store this size in the active settings profile.
    SaveApuMem(i32),
    /// Rebuild the pill strip from the offered sizes.
    RebuildStrip,
    /// Log that the daemon set this size.
    LogValueSet(i32),
    /// Pass this error message on to the window.
    Report(String),
}

/// How a size is labelled.
#[derive(PartialEq, Eq, Structural, Debug, Clone, Copy)]
pub enum ApuMemLabel {
    /// Size 0: the firmware decides.
    Auto,
    /// A size in gigabytes.
    Gigabytes(i32),
}

/// The label of a size: 0 is automatic, anything else a size in GB.
pub fn label_for_value(v: i32) -> (r: ApuMemLabel)
    ensures
        r == if v == 0 {
            ApuMemLabel::Auto
        } else {
            ApuMemLabel::Gigabytes(v)
        },
{
    if v == 0 {
        ApuMemLabel::Auto
    } else {
        ApuMemLabel::Gigabytes(v)
    }
}

/// The offered sizes the daemon reported, when the query succeeded and
/// offered at least one size; the page is unavailable otherwise.
pub fn usable_options(options: Result<Vec<i32>, String>) -> (r: Option<Vec<i32>>)
    ensures
        match options {
            Ok(v) => if v@.len() > 0 {
                r == Some(v)
            } else {
                r is None
            },
            Err(_) => r is None,
        },
{
    match options {
        Ok(v) => if v.len() > 0 {
            Some(v)
        } else {
            None
        },
        Err(_) => None,
    }
}

/// The start-up reply once the offered sizes are known: the sizes and the
/// current size, or unavailable when the current size cannot be read.
pub fn init_output(options: Vec<i32>, current: Result<i32, String>) -> (r: ApuMemCommandOutput)
    ensures
        match current {
            Ok(c) => r == ApuMemCommandOutput::Init(options, c),
            Err(_) => r == ApuMemCommandOutput::NotAvailable,
        },
{
    match current {
        Ok(c) => ApuMemCommandOutput::Init(options, c),
        Err(_) => ApuMemCommandOutput::NotAvailable,
    }
}

impl ApuMemModel {
    /// The page before the daemon has answered, showing the saved size.
    pub fn new(saved_value: i32) -> (r: ApuMemModel)
        ensures
            !r.available,
            r.current_value == saved_value,
            r.display_options@.len() == 0,
    {
        ApuMemModel { available: false, current_value: saved_value, display_options: Vec::new() }
    }

    /// Handles a user action. A loaded profile is applied only when the
    /// setting is available. A picked option is applied when the index is
    /// valid and the size differs from the current one.
    pub fn update(&mut self, msg: ApuMemMsg) -> (r: Vec<ApuMemAction>)
        ensures
            final(self).available == old(self).available,
            final(self).display_options@ == old(self).display_options@,
            match msg {
                ApuMemMsg::LoadProfile(v) => if !old(self).available {
                    final(self).current_value == old(self).current_value && r@.len() == 0
                } else {
                    final(self).current_value == v && r@ == seq![
                        ApuMemAction::SyncPills(v),
                        ApuMemAction::SetApuMem(v),
                    ]
                },
                ApuMemMsg::ChangeValue(idx) => if idx >= old(self).display_options@.len()
                    || old(self).display_options@[idx as int] == old(self).current_value {
                    final(self).current_value == old(self).current_value && r@.len() == 0
                } else {
                    let v = old(self).display_options@[idx as int];
                    final(self).current_value == v && r@ == seq![
                        ApuMemAction::SaveApuMem(v),
                        ApuMemAction::SetApuMem(v),
                    ]
                },
            },
    {
        let mut actions: Vec<ApuMemAction> = Vec::new();
        match msg {
            ApuMemMsg::LoadProfile(value) => {
                if !self.available {
                    return actions;
                }
                self.current_value = value;
                actions.push(ApuMemAction::SyncPills(value));
                actions.push(ApuMemAction::SetApuMem(value));
            },
            ApuMemMsg::ChangeValue(idx) => {
                if idx >= self.display_options.len() {
                    return actions;
                }
                let value = self.display_options[idx];
                if value == self.current_value {
                    return actions;
                }
                self.current_value = value;
                actions.push(ApuMemAction::SaveApuMem(value));
                actions.push(ApuMemAction::SetApuMem(value));
            },
        }
        actions
    }

    /// Handles a daemon reply. The start-up reply makes the setting
    /// available with the offered and current sizes.
    pub fn update_cmd(&mut self, msg: ApuMemCommandOutput) -> (r: Option<ApuMemAction>)
        ensures
            match msg {
                ApuMemCommandOutput::Init(options, current) => {
                    &&& final(self).available
                    &&& final(self).display_options@ == options@
                    &&& final(self).current_value == current
                    &&& r == Some(ApuMemAction::RebuildStrip)
                },
                _ => {
                    &&& final(self).available == old(self).available
                    &&& final(self).display_options@ == old(self).display_options@
                    &&& final(self).current_value == old(self).current_value
                    &&& r == match msg {
                        ApuMemCommandOutput::ValueSet(v) => Some(ApuMemAction::LogValueSet(v)),
                        ApuMemCommandOutput::Error(e) => Some(ApuMemAction::Report(e)),
                        _ => None::<ApuMemAction>,
                    }
                },
            },
    {
        match msg {
            ApuMemCommandOutput::NotAvailable => None,
            ApuMemCommandOutput::Init(options, current) => {
                self.available = true;
                self.display_options = options;
                self.current_value = current;
                Some(ApuMemAction::RebuildStrip)
            },
            ApuMemCommandOutput::ValueSet(v) => Some(ApuMemAction::LogValueSet(v)),
            ApuMemCommandOutput::Error(e) => Some(ApuMemAction::Report(e)),
        }
    }

    /// The pill that shows `value`: the first offered option equal to it.
    pub fn pill_index(&self, value: i32) -> (r: Option<usize>)
        ensures
            match r {
                Some(i) => {
                    &&& i < self.display_options@.len()
                    &&& self.display_options@[i as int] == value
                    &&& forall|k: int| 0 <= k < i ==> self.display_options@[k] != value
                },
                None => !self.display_options@.contains(value),
            },
    {
        let mut i: usize = 0;
        while i < self.display_options.len()
            invariant
                i <= self.display_options@.len(),
                forall|k: int| 0 <= k < i ==> self.display_options@[k] != value,
            decreases self.display_options.len() - i,
        {
            if self.display_options[i] == value {
                return Some(i);
            }
            i += 1;
        }
        None
    }

    /// The reboot note follows the pills once the setting is available.
    pub fn show_reboot_note(&self) -> (r: bool)
        ensures
            r == self.available,
    {
        self.available
    }
}

} // verus!
