//! Window configuration. Creating the actual window and its event loop is
//! the windowing collaborator's job; this module only decides the
//! configuration it is asked for.

use vstd::prelude::*;

verus! {

/// A window size in pixels.
#[derive(Clone, Copy, Debug, PartialEq, Eq, Structural)]
pub struct WindowSize {
    pub width: u32,
    pub height: u32,
}

/// What the window collaborator is asked to create.
#[derive(Clone, Debug)]
pub struct WindowConfig {
    pub title: String,
    pub width: u32,
    pub height: u32,
    pub resizable: bool,
    pub maximized: bool,
}

/// The configured size derived from the primary monitor: two thirds of the
/// monitor each way, or a sensible default when no monitor size is known.
pub open spec fn spec_config_size(monitor: Option<(u32, u32)>) -> (int, int) {
    match monitor {
        Some(m) => ((m.0 as int) * 2 / 3, (m.1 as int) * 2 / 3),
        None => (1280, 720),
    }
}

impl WindowConfig {
    /// The configuration derived from the primary monitor's size, reported
    /// by the window collaborator: a resizable, non-maximized window of
    /// two thirds of the monitor, falling back to 1280 by 720.
    pub fn from_monitor(monitor: Option<(u32, u32)>) -> (r: WindowConfig)
        ensures
            r.title@ == "Mather Engine"@,
            (r.width as int, r.height as int) == spec_config_size(monitor),
            r.resizable,
            !r.maximized,
    {
        let (width, height): (u32, u32) = match monitor {
            Some(m) => (m.0 / 3 * 2 + (m.0 % 3) * 2 / 3, m.1 / 3 * 2 + (m.1 % 3) * 2 / 3),
            None => (1280, 720),
        };
        proof {
            if monitor is Some {
                let m = monitor->0;
                lemma_two_thirds(m.0 as int);
                lemma_two_thirds(m.1 as int);
            }
        }
        WindowConfig {
            title: "Mather Engine".to_owned(),
            width,
            height,
            resizable: true,
            maximized: false,
        }
    }
}

impl Default for WindowConfig {
    /// The default configuration: no monitor size known, so the fallback
    /// size.
    fn default() -> (r: WindowConfig)
        ensures
            r.title@ == "Mather Engine"@,
            r.width == 1280,
            r.height == 720,
            r.resizable,
            !r.maximized,
    {
        WindowConfig::from_monitor(None)
    }
}

/// Computing two thirds in pieces avoids overflowing the doubled value:
/// `v / 3 * 2 + (v % 3) * 2 / 3 == v * 2 / 3`.
proof fn lemma_two_thirds(v: int)
    requires
        v >= 0,
    ensures
        v / 3 * 2 + (v % 3) * 2 / 3 == v * 2 / 3,
{
    vstd::arithmetic::div_mod::lemma_fundamental_div_mod(v, 3);
    vstd::arithmetic::div_mod::lemma_mod_bound(v, 3);
    let q = v / 3;
    let m = v % 3;
    assert(v * 2 == 6 * q + 2 * m) by (nonlinear_arith)
        requires
            v == 3 * q + m,
    ;
    assert(v * 2 / 3 == (3 * (2 * q) + 2 * m) / 3);
    vstd::arithmetic::div_mod::lemma_hoist_over_denominator(2 * m, 2 * q, 3nat);
    assert((2 * m + 2 * q * 3) / 3 == 2 * q + 2 * m / 3);
    assert(3 * (2 * q) + 2 * m == 2 * m + 2 * q * 3) by (nonlinear_arith);
}

} // verus!
