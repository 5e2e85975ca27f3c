//! Build-time configuration and the logging surface.
//!
//! The build mode is fixed when the binary is produced and read once at
//! startup; it decides whether the diagnostic log plugin is attached at
//! all. When it is attached, it is attached at a fixed minimum severity,
//! and a message is emitted only when its severity reaches that minimum.

use vstd::prelude::*;

verus! {

/// The build configuration of the running binary: fixed at compile time,
/// never changed at run time.
#[derive(Clone, Copy, Debug, PartialEq, Eq, Structural)]
pub enum BuildMode {
    Debug,
    Release,
}

/// A message severity, from least to most severe.
#[derive(Clone, Copy, Debug, PartialEq, Eq, Structural)]
pub enum Severity {
    Trace,
    Debug,
    Info,
    Warn,
    Error,
}

/// The configuration handed to the log plugin: a single recognized
/// option, the minimum severity that is still emitted.
#[derive(Clone, Copy, Debug, PartialEq, Eq, Structural)]
pub struct LogConfig {
    pub min_severity: Severity,
}

/// Rank of a severity: higher means more severe.
pub open spec fn spec_severity_rank(s: Severity) -> int {
    match s {
        Severity::Trace => 0,
        Severity::Debug => 1,
        Severity::Info => 2,
        Severity::Warn => 3,
        Severity::Error => 4,
    }
}

/// The rank of a severity as a machine integer.
pub fn severity_rank(s: Severity) -> (r: u8)
    ensures
        r == spec_severity_rank(s),
{
    match s {
        Severity::Trace => 0,
        Severity::Debug => 1,
        Severity::Info => 2,
        Severity::Warn => 3,
        Severity::Error => 4,
    }
}

/// Whether a message of severity `msg` is emitted under `cfg`: exactly
/// when it is at least as severe as the configured minimum. Messages
/// below the minimum are suppressed.
pub fn allows(cfg: &LogConfig, msg: Severity) -> (r: bool)
    ensures
        r == (spec_severity_rank(msg) >= spec_severity_rank(cfg.min_severity)),
{
    severity_rank(msg) >= severity_rank(cfg.min_severity)
}

/// The label under which the primary window is registered in the host
/// runtime's window registry.
pub fn main_window_label() -> (l: &'static str)
    ensures
        l@ == "main"@,
{
    "main"
}

} // verus!
