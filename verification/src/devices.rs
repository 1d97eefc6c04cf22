//! The device monitor's decision: which hotplug events reconfigure the
//! display.
//!
//! The monitor drains an infinite, non-restartable sequence of device
//! events. An event on the primary display adapter triggers one display
//! reconfiguration; every other event is observed and logged only. A
//! transient read or poll error is itself non-fatal: the surrounding
//! loop logs it and keeps waiting for the next event.

use vstd::prelude::*;
use crate::commands::{display_args, display_line_spec, shell_split};

verus! {

/// One hotplug device event, as the monitor reads it.
pub struct DeviceEvent {
    pub sequence_number: u64,
    pub event_type: String,
    pub syspath: String,
    pub subsystem: String,
    pub sysname: String,
    pub devtype: String,
}

/// The device name whose events reconfigure the display.
pub open spec fn display_adapter_name() -> Seq<char> {
    "card0"@
}

/// Whether `sysname` names the primary display adapter.
pub fn is_display_adapter(sysname: &str) -> (r: bool)
    ensures
        r == (sysname@ == display_adapter_name()),
{
    let a = sysname.to_string();
    let b = String::from_str("card0");
    a == b
}

/// The monitor's response to one event.
pub enum MonitorAction {
    /// Run `program` with `args` to reconfigure the display output.
    Reconfigure { program: String, args: Vec<String> },
    /// Log the event; nothing further.
    Observe,
}

/// Decide the monitor's response to the event `ev`: a display
/// reconfiguration exactly for events on the primary display adapter
/// (and only while the fixed reconfiguration line splits into words),
/// bare observation for everything else.
pub fn monitor_action(ev: &DeviceEvent) -> (a: MonitorAction)
    ensures
        a is Reconfigure <==> ev.sysname@ == display_adapter_name() && shell_split(
            display_line_spec(),
        ) is Some,
        a matches MonitorAction::Reconfigure { program, args } ==> program@ == "xrandr"@
            && shell_split(display_line_spec()) == Some(args.deep_view()),
{
    if is_display_adapter(ev.sysname.as_str()) {
        match display_args() {
            Some(args) => MonitorAction::Reconfigure {
                program: String::from_str("xrandr"),
                args,
            },
            None => MonitorAction::Observe,
        }
    } else {
        MonitorAction::Observe
    }
}

} // verus!
