//! The graphics mode cards.
use vstd::prelude::*;
use crate::services::profiles::GfxMode;

verus! {

/// The graphics page: whether the graphics daemon answered, the active mode,
/// and the modes it offers (empty until it has answered).
pub struct GpuModel {
    pub supergfxctl_available: bool,
    pub current_mode: GfxMode,
    pub display_modes: Vec<GfxMode>,
}

/// User input on the graphics page.
#[derive(Debug)]
pub enum GpuMsg {
    /// The user clicked a mode card.
    ChangeMode(GfxMode),
    /// A saved profile set was loaded; the mode is its stored number.
    LoadProfile(u32),
}

/// Replies of the graphics daemon.
#[derive(Debug)]
pub enum GpuCommandOutput {
    SupergfxctlChecked(bool),
    InitModeAndSupported(GfxMode, Vec<GfxMode>),
    ModeSet(GfxMode),
    Error(String),
}

/// What the page asks its surroundings to do.
pub enum GpuAction {
    /// Store this mode number in the active settings profile.
    SaveGpuMode(u32),
    /// Redraw the cards.
    RebuildCards,
    /// Ask the daemon to switch to this mode.
    SetGpuMode(GfxMode),
    /// The daemon switched to this mode: log it and offer a session restart.
    OfferRestart(GfxMode),
    /// Pass this error message on to the window.
    Report(String),
}

/// The modes the page offers once the daemon has answered: the current
/// mode first, then each supported mode not listed yet, in the daemon's
/// order.
pub open spec fn spec_merge_modes(current: GfxMode, supported: Seq<GfxMode>) -> Seq<GfxMode>
    decreases supported.len(),
{
    if supported.len() == 0 {
        seq![current]
    } else {
        let prev = spec_merge_modes(current, supported.drop_last());
        if prev.contains(supported.last()) {
            prev
        } else {
            prev.push(supported.last())
        }
    }
}

fn contains_mode(v: &Vec<GfxMode>, m: GfxMode) -> (r: bool)
    ensures
        r == v@.contains(m),
{
    let mut i: usize = 0;
    while i < v.len()
        invariant
            i <= v.len(),
            forall|k: int| 0 <= k < i ==> v@[k] != m,
        decreases v.len() - i,
    {
        if v[i] == m {
            return true;
        }
        i += 1;
    }
    false
}

/// The list of offered modes for a daemon reply.
pub fn merge_modes(current: GfxMode, supported: &Vec<GfxMode>) -> (r: Vec<GfxMode>)
    ensures
        r@ == spec_merge_modes(current, supported@),
{
    let mut modes: Vec<GfxMode> = Vec::new();
    modes.push(current);
    let mut i: usize = 0;
    assert(supported@.take(0) =~= Seq::<GfxMode>::empty());
    assert(modes@ =~= seq![current]);
    while i < supported.len()
        invariant
            i <= supported.len(),
            modes@ == spec_merge_modes(current, supported@.take(i as int)),
        decreases supported.len() - i,
    {
        let m = supported[i];
        assert(supported@.take(i + 1).drop_last() =~= supported@.take(i as int));
        if !contains_mode(&modes, m) {
            modes.push(m);
        }
        i += 1;
    }
    assert(supported@.take(supported.len() as int) =~= supported@);
    modes
}

/// The offered modes start with the current mode, hold no mode twice, and
/// are exactly the current mode together with the supported ones.
pub proof fn lemma_merge_modes(current: GfxMode, supported: Seq<GfxMode>)
    ensures
        spec_merge_modes(current, supported).len() >= 1,
        spec_merge_modes(current, supported)[0] == current,
        spec_merge_modes(current, supported).no_duplicates(),
        forall|m: GfxMode|
            spec_merge_modes(current, supported).contains(m) <==> (m == current
                || supported.contains(m)),
    decreases supported.len(),
{
    if supported.len() > 0 {
        let s0 = supported.drop_last();
        lemma_merge_modes(current, s0);
        let prev = spec_merge_modes(current, s0);
        assert forall|m: GfxMode| supported.contains(m) <==> (s0.contains(m) || m == supported.last()) by {
            if supported.contains(m) {
                let k = choose|k: int| 0 <= k < supported.len() && supported[k] == m;
                if k < supported.len() - 1 {
                    assert(s0[k] == m);
                }
            }
            if s0.contains(m) {
                let k = choose|k: int| 0 <= k < s0.len() && s0[k] == m;
                assert(supported[k] == m);
            }
            if m == supported.last() {
                assert(supported[supported.len() - 1] == m);
            }
        }
        if !prev.contains(supported.last()) {
            let next = prev.push(supported.last());
            assert forall|m: GfxMode| next.contains(m) <==> (prev.contains(m) || m == supported.last()) by {
                if next.contains(m) {
                    let k = choose|k: int| 0 <= k < next.len() && next[k] == m;
                    if k < prev.len() {
                        assert(prev[k] == m);
                    }
                }
                if prev.contains(m) {
                    let k = choose|k: int| 0 <= k < prev.len() && prev[k] == m;
                    assert(next[k] == m);
                }
                if m == supported.last() {
                    assert(next[prev.len() as int] == m);
                }
            }
        }
    }
}

/// The cards shown for the three modes the page surfaces (Integrated,
/// Hybrid, Dedicated), or the missing-daemon warning.
pub enum GpuCards {
    /// The daemon did not answer and no modes are known: show a warning.
    MissingDaemon,
    /// Mode cards, each with whether it is the active one, and whether the
    /// reboot note follows them.
    Cards { cards: Vec<(GfxMode, bool)>, reboot_note: bool },
}

/// A surfaced mode gets a card while the offered modes are unknown, when it
/// is offered, or when it is the current mode.
pub open spec fn spec_card_shown(display: Seq<GfxMode>, current: GfxMode, m: GfxMode) -> bool {
    display.len() == 0 || display.contains(m) || m == current
}

pub open spec fn spec_push_card(
    acc: Seq<(GfxMode, bool)>,
    display: Seq<GfxMode>,
    current: GfxMode,
    m: GfxMode,
) -> Seq<(GfxMode, bool)> {
    if spec_card_shown(display, current, m) {
        acc.push((m, m == current))
    } else {
        acc
    }
}

/// The mode cards in display order.
pub open spec fn spec_cards(display: Seq<GfxMode>, current: GfxMode) -> Seq<(GfxMode, bool)> {
    let a = spec_push_card(Seq::empty(), display, current, GfxMode::Integrated);
    let b = spec_push_card(a, display, current, GfxMode::Hybrid);
    spec_push_card(b, display, current, GfxMode::NvidiaNoModeset)
}

impl GpuModel {
    /// The page before the daemon has answered, showing the saved mode.
    pub fn new(saved_mode: GfxMode) -> (r: GpuModel)
        ensures
            !r.supergfxctl_available,
            r.current_mode == saved_mode,
            r.display_modes@.len() == 0,
    {
        GpuModel { supergfxctl_available: false, current_mode: saved_mode, display_modes: Vec::new() }
    }

    /// Handles a user action. Loading a profile does nothing until the
    /// daemon has answered; otherwise it switches the highlighted mode,
    /// redraws and asks the daemon. Clicking the current mode does nothing;
    /// another mode is stored, shown and requested.
    pub fn update(&mut self, msg: GpuMsg) -> (r: Vec<GpuAction>)
        ensures
            final(self).supergfxctl_available == old(self).supergfxctl_available,
            final(self).display_modes@ == old(self).display_modes@,
            match msg {
                GpuMsg::LoadProfile(n) => if !old(self).supergfxctl_available {
                    final(self).current_mode == old(self).current_mode && r@.len() == 0
                } else {
                    final(self).current_mode == GfxMode::spec_from_number(n) && r@ == seq![
                        GpuAction::RebuildCards,
                        GpuAction::SetGpuMode(GfxMode::spec_from_number(n)),
                    ]
                },
                GpuMsg::ChangeMode(m) => if m == old(self).current_mode {
                    final(self).current_mode == old(self).current_mode && r@.len() == 0
                } else {
                    final(self).current_mode == m && r@ == seq![
                        GpuAction::SaveGpuMode(m.spec_number()),
                        GpuAction::RebuildCards,
                        GpuAction::SetGpuMode(m),
                    ]
                },
            },
    {
        let mut actions: Vec<GpuAction> = Vec::new();
        match msg {
            GpuMsg::LoadProfile(n) => {
                if !self.supergfxctl_available {
                    return actions;
                }
                let mode = GfxMode::from_number(n);
                self.current_mode = mode;
                actions.push(GpuAction::RebuildCards);
                actions.push(GpuAction::SetGpuMode(mode));
            },
            GpuMsg::ChangeMode(m) => {
                if m == self.current_mode {
                    return actions;
                }
                self.current_mode = m;
                actions.push(GpuAction::SaveGpuMode(m.number()));
                actions.push(GpuAction::RebuildCards);
                actions.push(GpuAction::SetGpuMode(m));
            },
        }
        actions
    }

    /// Handles a daemon reply. The initial reply sets the current mode and
    /// the offered modes (see `spec_merge_modes`) and redraws.
    pub fn update_cmd(&mut self, msg: GpuCommandOutput) -> (r: Option<GpuAction>)
        ensures
            match msg {
                GpuCommandOutput::SupergfxctlChecked(a) => {
                    &&& final(self).supergfxctl_available == a
                    &&& final(self).current_mode == old(self).current_mode
                    &&& final(self).display_modes@ == old(self).display_modes@
                    &&& r is None
                },
                GpuCommandOutput::InitModeAndSupported(current, supported) => {
                    &&& final(self).supergfxctl_available == old(self).supergfxctl_available
                    &&& final(self).current_mode == current
                    &&& final(self).display_modes@ == spec_merge_modes(current, supported@)
                    &&& r == Some(GpuAction::RebuildCards)
                },
                GpuCommandOutput::ModeSet(m) => {
                    &&& final(self).supergfxctl_available == old(self).supergfxctl_available
                    &&& final(self).current_mode == old(self).current_mode
                    &&& final(self).display_modes@ == old(self).display_modes@
                    &&& r == Some(GpuAction::OfferRestart(m))
                },
                GpuCommandOutput::Error(e) => {
                    &&& final(self).supergfxctl_available == old(self).supergfxctl_available
                    &&& final(self).current_mode == old(self).current_mode
                    &&& final(self).display_modes@ == old(self).display_modes@
                    &&& r == Some(GpuAction::Report(e))
                },
            },
    {
        match msg {
            GpuCommandOutput::SupergfxctlChecked(a) => {
                self.supergfxctl_available = a;
                None
            },
            GpuCommandOutput::InitModeAndSupported(current, supported) => {
                self.display_modes = merge_modes(current, &supported);
                self.current_mode = current;
                Some(GpuAction::RebuildCards)
            },
            GpuCommandOutput::ModeSet(m) => Some(GpuAction::OfferRestart(m)),
            GpuCommandOutput::Error(e) => Some(GpuAction::Report(e)),
        }
    }

    /// What the page shows: the warning while the daemon is missing and no
    /// modes are known, otherwise the shown mode cards and, once the offered
    /// modes are known, the reboot note.
    pub fn cards(&self) -> (r: GpuCards)
        ensures
            match r {
                GpuCards::MissingDaemon => !self.supergfxctl_available
                    && self.display_modes@.len() == 0,
                GpuCards::Cards { cards, reboot_note } => {
                    &&& (self.supergfxctl_available || self.display_modes@.len() > 0)
                    &&& cards@ == spec_cards(self.display_modes@, self.current_mode)
                    &&& reboot_note == (self.display_modes@.len() > 0)
                },
            },
    {
        if !self.supergfxctl_available && self.display_modes.len() == 0 {
            return GpuCards::MissingDaemon;
        }
        let mut cards: Vec<(GfxMode, bool)> = Vec::new();
        let empty = self.display_modes.len() == 0;
        if empty || contains_mode(&self.display_modes, GfxMode::Integrated)
            || GfxMode::Integrated == self.current_mode {
            cards.push((GfxMode::Integrated, GfxMode::Integrated == self.current_mode));
        }
        if empty || contains_mode(&self.display_modes, GfxMode::Hybrid) || GfxMode::Hybrid
            == self.current_mode {
            cards.push((GfxMode::Hybrid, GfxMode::Hybrid == self.current_mode));
        }
        if empty || contains_mode(&self.display_modes, GfxMode::NvidiaNoModeset)
            || GfxMode::NvidiaNoModeset == self.current_mode {
            cards.push((GfxMode::NvidiaNoModeset, GfxMode::NvidiaNoModeset == self.current_mode));
        }
        GpuCards::Cards { cards, reboot_note: !empty }
    }
}

/// Exactly one card is highlighted when the current mode is one of the three
/// surfaced modes: the current mode's own card.
pub proof fn lemma_current_mode_card_highlighted(display: Seq<GfxMode>, current: GfxMode)
    requires
        current == GfxMode::Integrated || current == GfxMode::Hybrid || current
            == GfxMode::NvidiaNoModeset,
    ensures
        exists|i: int|
            0 <= i < spec_cards(display, current).len() && #[trigger] spec_cards(
                display,
                current,
            )[i] == (current, true),
        forall|i: int|
            0 <= i < spec_cards(display, current).len() ==> (#[trigger] spec_cards(
                display,
                current,
            )[i].1 <==> spec_cards(display, current)[i].0 == current),
{
    let c = spec_cards(display, current);
    let a = spec_push_card(Seq::empty(), display, current, GfxMode::Integrated);
    let b = spec_push_card(a, display, current, GfxMode::Hybrid);
    if current == GfxMode::Integrated {
        assert(c[0] == (current, true));
    } else if current == GfxMode::Hybrid {
        assert(c[a.len() as int] == (current, true));
    } else {
        assert(c[b.len() as int] == (current, true));
    }
}

} // verus!
