//! The about page: the status dots of the two daemons.
use vstd::prelude::*;

verus! {

/// Whether the ASUS daemon and the graphics daemon answered.
#[derive(PartialEq, Eq, Structural, Clone, Copy)]
pub struct AboutModel {
    pub asusd_running: bool,
    pub supergfxd_running: bool,
}

/// The result of the daemon check.
#[derive(Debug)]
pub enum AboutCmd {
    DaemonStatus { asusd: bool, supergfxd: bool },
}

impl AboutModel {
    /// The page before the daemons were checked: both shown as stopped.
    pub fn new() -> (r: AboutModel)
        ensures
            !r.asusd_running && !r.supergfxd_running,
    {
        AboutModel { asusd_running: false, supergfxd_running: false }
    }

    /// Records the daemon check.
    pub fn update_cmd(&mut self, msg: AboutCmd)
        ensures
            match msg {
                AboutCmd::DaemonStatus { asusd, supergfxd } => *final(self) == (AboutModel {
                    asusd_running: asusd,
                    supergfxd_running: supergfxd,
                }),
            },
    {
        match msg {
            AboutCmd::DaemonStatus { asusd, supergfxd } => {
                self.asusd_running = asusd;
                self.supergfxd_running = supergfxd;
            },
        }
    }
}

/// The status dot: filled for a running daemon, hollow otherwise.
pub fn dot_glyph(running: bool) -> (r: &'static str)
    ensures
        r@ == if running {
            "●"@
        } else {
            "○"@
        },
{
    if running {
        "●"
    } else {
        "○"
    }
}

/// The style class of the status dot: `success` when running, `error`
/// otherwise.
pub fn dot_css_class(running: bool) -> (r: &'static str)
    ensures
        r@ == if running {
            "success"@
        } else {
            "error"@
        },
{
    if running {
        "success"
    } else {
        "error"
    }
}

} // verus!
