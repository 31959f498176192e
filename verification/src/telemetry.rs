//! Read-only telemetry snapshot of the watcher, safe to assemble at any
//! time — including before the watcher has finished initializing, when it
//! reports the not-yet-started defaults.

use crate::watcher::OptimizerContext;
use crate::watcher::WatcherState;
use vstd::prelude::*;

verus! {

broadcast use vstd::string::group_string_axioms;

/// Elevation telemetry for monitoring optimization effectiveness.
pub struct ElevationTelemetry {
    /// Number of engine child processes that have been elevated.
    pub processes_elevated: u32,
    /// Current monitoring mode: `wmi` (event-driven) or `polling`.
    pub mode: String,
    /// Whether the optimizer thread is currently running.
    pub is_active: bool,
    /// Whether the event subscription is working.
    pub wmi_available: bool,
}

/// Assemble the current elevation telemetry from the watcher's state.
pub fn get_elevation_telemetry(ctx: &OptimizerContext) -> (t: ElevationTelemetry)
    ensures
        t.processes_elevated == ctx.elevated_count(),
        t.is_active == ctx.started(),
        t.wmi_available == (ctx.state() == WatcherState::EventDriven),
        t.mode@ == (if ctx.state() == WatcherState::EventDriven {
            "wmi"@
        } else {
            "polling"@
        }),
{
    let wmi_active = ctx.current_state() == WatcherState::EventDriven;
    ElevationTelemetry {
        processes_elevated: ctx.current_elevated_count(),
        mode: if wmi_active {
            "wmi".to_string()
        } else {
            "polling".to_string()
        },
        is_active: ctx.is_started(),
        wmi_available: wmi_active,
    }
}

} // verus!
