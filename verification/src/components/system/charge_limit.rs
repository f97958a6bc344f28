//! The charge limit slider: what the battery page does with slider moves and
//! with the daemon's replies.
use vstd::prelude::*;
use crate::services::gnome_brightness::spec_clamp;

verus! {

/// The charge limit page: the limit shown on the slider and whether the
/// ASUS daemon has answered.
pub struct ChargeLimit {
    pub limit: u8,
    pub asusd_available: bool,
}

/// User input on the charge limit slider.
#[derive(Debug)]
pub enum ChargeLimitMsg {
    /// The slider moved to this value.
    SliderChanged(u8),
    /// The user released the slider.
    Commit,
}

/// Replies of the ASUS daemon.
#[derive(Debug)]
pub enum ChargeLimitCmd {
    /// The limit read at start-up.
    Loaded(u8),
    /// The limit the daemon set.
    Updated(u8),
    /// A daemon call failed.
    Error(String),
}

/// What the page asks its surroundings to do.
pub enum ChargeLimitAction {
    /// Ask the daemon to set this charge limit.
    SetChargeLimit(u8),
    /// Show this limit on the slider and its label.
    ShowLimit(u8),
    /// Pass this error message on to the window.
    Report(String),
}

impl ChargeLimit {
    /// The page before the daemon has answered: 80 % on the slider.
    pub fn new() -> (r: ChargeLimit)
        ensures
            r.limit == 80,
            !r.asusd_available,
    {
        ChargeLimit { limit: 80, asusd_available: false }
    }

    /// A charge limit brought into the range the daemon accepts, 20–100 %.
    pub fn clamp_limit(v: u8) -> (r: u8)
        ensures
            r == spec_clamp(v as int, 20, 100),
    {
        if v < 20 {
            20
        } else if v > 100 {
            100
        } else {
            v
        }
    }

    /// The page after a slider event, and what it asks for.
    pub open spec fn spec_update(self, msg: ChargeLimitMsg) -> (ChargeLimit, Option<ChargeLimitAction>) {
        match msg {
            ChargeLimitMsg::SliderChanged(v) => (
                ChargeLimit { limit: spec_clamp(v as int, 20, 100) as u8, ..self },
                None,
            ),
            ChargeLimitMsg::Commit => (
                self,
                if self.asusd_available {
                    Some(ChargeLimitAction::SetChargeLimit(self.limit))
                } else {
                    None
                },
            ),
        }
    }

    /// The page after a daemon reply, and what it asks for.
    pub open spec fn spec_update_cmd(self, msg: ChargeLimitCmd) -> (ChargeLimit, ChargeLimitAction) {
        match msg {
            ChargeLimitCmd::Loaded(v) | ChargeLimitCmd::Updated(v) => (
                ChargeLimit { limit: v, asusd_available: true },
                ChargeLimitAction::ShowLimit(v),
            ),
            ChargeLimitCmd::Error(e) => (self, ChargeLimitAction::Report(e)),
        }
    }

    /// Handles a slider event: a move records the value limited to 20–100 %;
    /// a release sends the recorded limit to the daemon, once it has
    /// answered.
    pub fn update(&mut self, msg: ChargeLimitMsg) -> (r: Option<ChargeLimitAction>)
        ensures
            (*final(self), r) == old(self).spec_update(msg),
    {
        match msg {
            ChargeLimitMsg::SliderChanged(v) => {
                self.limit = Self::clamp_limit(v);
                None
            },
            ChargeLimitMsg::Commit => {
                if !self.asusd_available {
                    None
                } else {
                    Some(ChargeLimitAction::SetChargeLimit(self.limit))
                }
            },
        }
    }

    /// Handles a daemon reply: a value read or set marks the daemon as
    /// present and is shown; an error is passed on.
    pub fn update_cmd(&mut self, msg: ChargeLimitCmd) -> (r: ChargeLimitAction)
        ensures
            (*final(self), r) == old(self).spec_update_cmd(msg),
    {
        match msg {
            ChargeLimitCmd::Loaded(v) | ChargeLimitCmd::Updated(v) => {
                self.asusd_available = true;
                self.limit = v;
                ChargeLimitAction::ShowLimit(v)
            },
            ChargeLimitCmd::Error(e) => ChargeLimitAction::Report(e),
        }
    }
}

/// Whatever the slider reports, the limit it records lies within 20–100 %.
pub proof fn lemma_slider_limit_in_range(v: u8)
    ensures
        20 <= spec_clamp(v as int, 20, 100) <= 100,
{
}

/// A limit already within 20–100 % passes the clamp unchanged, so clamping
/// twice is clamping once.
pub proof fn lemma_clamp_limit_keeps_valid(v: int)
    ensures
        20 <= v <= 100 ==> spec_clamp(v, 20, 100) == v,
        spec_clamp(spec_clamp(v, 20, 100), 20, 100) == spec_clamp(v, 20, 100),
{
}

/// After the daemon has reported a limit, releasing the slider without
/// moving it sends exactly that limit back.
pub proof fn lemma_commit_after_load_sends_loaded(page: ChargeLimit, v: u8)
    ensures
        ({
            let (loaded, _) = page.spec_update_cmd(ChargeLimitCmd::Loaded(v));
            loaded.spec_update(ChargeLimitMsg::Commit).1 == Some(
                ChargeLimitAction::SetChargeLimit(v),
            )
        }),
{
}

/// Before the daemon has answered, releasing the slider sends nothing.
pub proof fn lemma_no_commit_without_daemon(page: ChargeLimit)
    requires
        !page.asusd_available,
    ensures
        page.spec_update(ChargeLimitMsg::Commit).1 is None,
{
}

/// A failed daemon call is only reported: the page keeps its limit and
/// still knows the daemon, so the next release of the slider sends the
/// limit exactly as it would have without the error.
pub proof fn lemma_error_only_reports(page: ChargeLimit, e: String)
    ensures
        ({
            let (next, action) = page.spec_update_cmd(ChargeLimitCmd::Error(e));
            &&& action == ChargeLimitAction::Report(e)
            &&& next.limit == page.limit
            &&& next.asusd_available == page.asusd_available
            &&& next.spec_update(ChargeLimitMsg::Commit).1 == page.spec_update(ChargeLimitMsg::Commit).1
            &&& (page.asusd_available ==> next.spec_update(ChargeLimitMsg::Commit).1
                == Some(ChargeLimitAction::SetChargeLimit(page.limit)))
        }),
{
}

} // verus!
