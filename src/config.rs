//! The build-time service table.

use vstd::prelude::*;
use crate::defs::{RestartPolicy, ServiceConfig};

verus! {

/// `c` describes the service `name` with executable `path`, launched with no
/// arguments.
pub open spec fn describes(
    c: ServiceConfig,
    name: &str,
    path: &str,
    policy: RestartPolicy,
    critical: bool,
) -> bool {
    &&& c.name@ == name@
    &&& c.path@ == path@
    &&& c.args@.len() == 0
    &&& c.restart_policy == policy
    &&& c.critical == critical
}

/// The services known to the supervisor, in the order in which they start: a
/// later service may rely on an earlier one being up.
pub open spec fn is_service_table(t: Seq<ServiceConfig>) -> bool {
    &&& t.len() == 4
    &&& describes(t[0], "input", "/system/services/input", RestartPolicy::Always, true)
    &&& describes(t[1], "firefly", "/system/services/firefly", RestartPolicy::Always, true)
    &&& describes(t[2], "shell", "/system/services/shell", RestartPolicy::Always, true)
    &&& describes(t[3], "terminal", "/system/services/terminal", RestartPolicy::Always, false)
}

/// The service table: input devices first, then the compositor, the desktop
/// shell and the terminal.
pub fn services() -> (t: Vec<ServiceConfig>)
    ensures
        is_service_table(t@),
{
    let mut t: Vec<ServiceConfig> = Vec::new();
    t.push(ServiceConfig {
        name: "input",
        path: "/system/services/input",
        args: &[],
        restart_policy: RestartPolicy::Always,
        critical: true,
    });
    t.push(ServiceConfig {
        name: "firefly",
        path: "/system/services/firefly",
        args: &[],
        restart_policy: RestartPolicy::Always,
        critical: true,
    });
    t.push(ServiceConfig {
        name: "shell",
        path: "/system/services/shell",
        args: &[],
        restart_policy: RestartPolicy::Always,
        critical: true,
    });
    t.push(ServiceConfig {
        name: "terminal",
        path: "/system/services/terminal",
        args: &[],
        restart_policy: RestartPolicy::Always,
        critical: false,
    });
    t
}

} // verus!
