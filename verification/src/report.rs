//! Conversion of a startup failure into a process exit.
//!
//! No recovery path exists by design: the single outermost caller turns
//! any failure into process termination with a static human-readable
//! message and a non-zero exit code. This module states exactly which
//! message and which code belong to which failure.

use vstd::prelude::*;
use vstd::string::StringExecFns;
use crate::machine::BootState;
use crate::machine::Bootstrapper;
use crate::machine::FailReason;

verus! {

/// What a failed process run reports on its way out: a non-zero exit
/// code and a diagnostic message.
#[derive(Debug, PartialEq, Eq)]
pub struct ExitReport {
    pub code: i32,
    pub message: String,
}

/// The static diagnostic message that belongs to each failure.
pub open spec fn spec_diagnostic(reason: FailReason) -> Seq<char> {
    match reason {
        FailReason::MaximizeFailed => "failed to maximize the main window"@,
        FailReason::LogAttachFailed => "failed to attach the log plugin"@,
        FailReason::RunLoopFailed => "error while running tauri application"@,
    }
}

/// The diagnostic message for a failure, as a string slice.
pub fn diagnostic(reason: FailReason) -> (m: &'static str)
    ensures
        m@ == spec_diagnostic(reason),
{
    match reason {
        FailReason::MaximizeFailed => "failed to maximize the main window",
        FailReason::LogAttachFailed => "failed to attach the log plugin",
        FailReason::RunLoopFailed => "error while running tauri application",
    }
}

/// The exit report owed for the bootstrapper's final state: `None` when
/// nothing failed, and otherwise the failure's diagnostic message with
/// a non-zero exit code.
pub fn exit_report(b: &Bootstrapper) -> (r: Option<ExitReport>)
    ensures
        r is Some <==> b.state is Failed,
        (match b.state {
            BootState::Failed(reason) => (match r {
                Some(rep) => rep.code == 1 && rep.message@ == spec_diagnostic(reason),
                None => false,
            }),
            _ => r is None,
        }),
{
    match b.state {
        BootState::Failed(reason) => Some(
            ExitReport { code: 1, message: String::from_str(diagnostic(reason)) },
        ),
        _ => None,
    }
}

} // verus!
