use vstd::prelude::*;
use vstd::string::StringExecFns;

use crate::dsn::{opt_str_view, spec_upstream_url, upstream_url};
use crate::text::{spec_decimal, u64_decimal};

verus! {

/// Seconds granted to cooperating subsystems to drain before exit, and
/// the forwarder's configured drain bound.
pub const SHUTDOWN_TIMEOUT: u64 = 2;

/// What one supervision pass decided.
#[derive(PartialEq, Eq, Structural, Clone, Copy, Debug)]
pub enum SupervisionAction {
    /// The forwarder answered its readiness probe; nothing to do.
    AlreadyRunning,
    /// The forwarder is unreachable; launch it, once.
    Launch,
}

/// Decides one supervision pass from the probe outcome: a reachable
/// forwarder is left alone, an unreachable one is launched — exactly one
/// launch per unreachable pass, none per reachable pass.
pub fn supervise(reachable: bool) -> (a: SupervisionAction)
    ensures
        a is Launch <==> !reachable,
        a is AlreadyRunning <==> reachable,
{
    if reachable {
        SupervisionAction::AlreadyRunning
    } else {
        SupervisionAction::Launch
    }
}

/// The overriding configuration handed to the forwarder at launch.
pub struct ForwarderOverrides {
    pub mode: String,
    pub shutdown_timeout: String,
    pub upstream: Option<String>,
}

/// Builds the forwarder's launch overrides: proxy operating mode, the
/// fixed drain timeout, and the upstream target derived from the optional
/// destination identifier.
pub fn make_overrides(dsn: Option<&str>) -> (c: ForwarderOverrides)
    ensures
        c.mode@ == "proxy"@,
        c.shutdown_timeout@ == spec_decimal(SHUTDOWN_TIMEOUT as nat),
        match c.upstream {
            Some(u) => spec_upstream_url(opt_str_view(dsn)) == Some(u@),
            None => spec_upstream_url(opt_str_view(dsn)) is None,
        },
{
    ForwarderOverrides {
        mode: "proxy".to_owned(),
        shutdown_timeout: u64_decimal(SHUTDOWN_TIMEOUT),
        upstream: upstream_url(dsn),
    }
}

} // verus!
