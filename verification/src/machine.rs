//! The bootstrap state machine.
//!
//! Startup is a fixed linear sequence: register the dialog plugin,
//! register the filesystem plugin, look up the window named "main" and
//! maximize it when it is there, attach the log plugin in a debug build,
//! then hand control to the host run loop. The host runtime performs
//! each of those operations; the [`Bootstrapper`] decides them, records
//! what it requested, and moves through the states below. Any failure
//! after the window lookup is fatal: the machine enters a terminal
//! `Failed` state and the run loop is never entered from it.

use vstd::prelude::*;
use crate::config::BuildMode;
use crate::config::LogConfig;
use crate::config::Severity;

verus! {

/// Why startup failed. The absence of the main window is not a failure;
/// every other misstep is fatal.
#[derive(Clone, Copy, Debug, PartialEq, Eq, Structural)]
pub enum FailReason {
    /// The main window was found but the maximize request failed.
    MaximizeFailed,
    /// The log plugin could not be attached in a debug build.
    LogAttachFailed,
    /// The host run loop could not be started.
    RunLoopFailed,
}

/// Where the bootstrapper stands in the startup sequence.
#[derive(Clone, Copy, Debug, PartialEq, Eq, Structural)]
pub enum BootState {
    /// The dialog plugin has not been registered yet.
    RegisterDialogPending,
    /// The filesystem plugin has not been registered yet.
    RegisterFsPending,
    /// The window registry has not been consulted yet.
    WindowLookupPending,
    /// The main window was found and a maximize request was issued;
    /// its outcome is not known yet.
    MaximizePending,
    /// The window step is done; whether to attach logging is undecided.
    LogDecisionPending,
    /// A log attachment was requested; its outcome is not known yet.
    LogAttachPending,
    /// Setup is complete; the run loop may be entered.
    ReadyToRun,
    /// Control has been handed to the host run loop.
    Running,
    /// The run loop returned normally; the process is about to exit.
    Exited,
    /// Startup failed; terminal.
    Failed(FailReason),
}

/// The bootstrapper: the build mode it was started with, its position in
/// the startup sequence, what it observed of the window registry, and a
/// count of every request it issued.
#[derive(Clone, Copy, Debug)]
pub struct Bootstrapper {
    /// The build configuration, read once at construction.
    pub mode: BuildMode,
    /// The current state of the startup sequence.
    pub state: BootState,
    /// `None` until the window registry was consulted, then whether a
    /// window named "main" was present.
    pub window_present: Option<bool>,
    /// How many maximize requests have been issued.
    pub maximize_requests: u64,
    /// How many log attachments have been requested.
    pub log_attachments: u64,
    /// The configuration of the requested log attachment, if any.
    pub log_config: Option<LogConfig>,
    /// Whether control was ever handed to the host run loop.
    pub run_entered: bool,
}

impl Bootstrapper {
    /// States in which the window registry has not been consulted yet.
    pub open spec fn before_window_lookup(self) -> bool {
        match self.state {
            BootState::RegisterDialogPending => true,
            BootState::RegisterFsPending => true,
            BootState::WindowLookupPending => true,
            _ => false,
        }
    }

    /// States in which the logging decision has been made.
    pub open spec fn log_decided(self) -> bool {
        match self.state {
            BootState::LogAttachPending => true,
            BootState::ReadyToRun => true,
            BootState::Running => true,
            BootState::Exited => true,
            BootState::Failed(reason) => reason != FailReason::MaximizeFailed,
            _ => false,
        }
    }

    /// The number of maximize requests that must have been issued given
    /// what was observed of the window registry.
    pub open spec fn expected_maximize_requests(self) -> u64 {
        if self.window_present == Some(true) {
            1
        } else {
            0
        }
    }

    /// The number of log attachments that must have been requested given
    /// the recorded log configuration.
    pub open spec fn expected_log_attachments(self) -> u64 {
        if self.log_config is Some {
            1
        } else {
            0
        }
    }

    /// The window registry is consulted exactly once, and a maximize
    /// request is issued exactly when that lookup found the main window.
    pub open spec fn window_accounting_ok(self) -> bool {
        &&& self.maximize_requests == self.expected_maximize_requests()
        &&& (self.window_present is None <==> self.before_window_lookup())
        &&& (self.state == BootState::MaximizePending ==> self.window_present == Some(true))
        &&& (self.state == BootState::Failed(FailReason::MaximizeFailed) ==> self.window_present
            == Some(true))
    }

    /// Logging is requested exactly once, only in a debug build, and
    /// only at informational minimum severity.
    pub open spec fn log_accounting_ok(self) -> bool {
        &&& self.log_attachments == self.expected_log_attachments()
        &&& (self.log_config matches Some(cfg) ==> cfg == (LogConfig {
            min_severity: Severity::Info,
        }))
        &&& (self.log_config is Some <==> self.log_decided() && self.mode == BuildMode::Debug)
        &&& (match self.state {
            BootState::LogAttachPending => self.mode == BuildMode::Debug,
            BootState::Failed(reason) => reason == FailReason::LogAttachFailed ==> self.mode
                == BuildMode::Debug,
            _ => true,
        })
    }

    /// The run loop is entered exactly from a completed setup, and a
    /// setup failure never reaches it.
    pub open spec fn run_accounting_ok(self) -> bool {
        self.run_entered <==> match self.state {
            BootState::Running => true,
            BootState::Exited => true,
            BootState::Failed(reason) => reason == FailReason::RunLoopFailed,
            _ => false,
        }
    }

    /// The bootstrapper's invariant: established at construction and
    /// preserved by every step.
    pub open spec fn wf(self) -> bool {
        &&& self.window_accounting_ok()
        &&& self.log_accounting_ok()
        &&& self.run_accounting_ok()
    }

    /// A fresh bootstrapper for the given build mode: nothing observed,
    /// nothing requested, at the head of the startup sequence.
    pub fn new(mode: BuildMode) -> (b: Bootstrapper)
        ensures
            b.wf(),
            b.mode == mode,
            b.state == BootState::RegisterDialogPending,
            b.window_present is None,
            b.maximize_requests == 0,
            b.log_attachments == 0,
            b.log_config is None,
            !b.run_entered,
    {
        Bootstrapper {
            mode,
            state: BootState::RegisterDialogPending,
            window_present: None,
            maximize_requests: 0,
            log_attachments: 0,
            log_config: None,
            run_entered: false,
        }
    }

    /// Record that the dialog plugin was registered. Registration is
    /// side-effect-only and has no failure path.
    pub fn dialog_registered(&mut self)
        requires
            old(self).wf(),
            old(self).state == BootState::RegisterDialogPending,
        ensures
            final(self).wf(),
            *final(self) == (Bootstrapper { state: BootState::RegisterFsPending, ..*old(self) }),
    {
        self.state = BootState::RegisterFsPending;
    }

    /// Record that the filesystem plugin was registered.
    pub fn fs_registered(&mut self)
        requires
            old(self).wf(),
            old(self).state == BootState::RegisterFsPending,
        ensures
            final(self).wf(),
            *final(self) == (Bootstrapper { state: BootState::WindowLookupPending, ..*old(self) }),
    {
        self.state = BootState::WindowLookupPending;
    }

    /// Record the outcome of the window lookup. Exactly when a window
    /// named "main" is present, one maximize request is issued and the
    /// result is `true`; an absent window is skipped silently and the
    /// sequence moves straight to the logging decision.
    pub fn window_looked_up(&mut self, present: bool) -> (maximize_now: bool)
        requires
            old(self).wf(),
            old(self).state == BootState::WindowLookupPending,
        ensures
            final(self).wf(),
            maximize_now == present,
            final(self).mode == old(self).mode,
            final(self).window_present == Some(present),
            final(self).maximize_requests == (if present {
                1u64
            } else {
                0u64
            }),
            final(self).log_attachments == old(self).log_attachments,
            final(self).log_config == old(self).log_config,
            final(self).run_entered == old(self).run_entered,
            final(self).state == (if present {
                BootState::MaximizePending
            } else {
                BootState::LogDecisionPending
            }),
    {
        self.window_present = Some(present);
        if present {
            self.maximize_requests = self.maximize_requests + 1;
            self.state = BootState::MaximizePending;
            true
        } else {
            self.state = BootState::LogDecisionPending;
            false
        }
    }

    /// Record the outcome of the maximize request. Success moves on to
    /// the logging decision; failure is fatal.
    pub fn maximize_finished(&mut self, ok: bool)
        requires
            old(self).wf(),
            old(self).state == BootState::MaximizePending,
        ensures
            final(self).wf(),
            *final(self) == (Bootstrapper {
                state: if ok {
                    BootState::LogDecisionPending
                } else {
                    BootState::Failed(FailReason::MaximizeFailed)
                },
                ..*old(self)
            }),
    {
        if ok {
            self.state = BootState::LogDecisionPending;
        } else {
            self.state = BootState::Failed(FailReason::MaximizeFailed);
        }
    }

    /// Decide the logging attachment. In a debug build, exactly one
    /// attachment at informational minimum severity is requested and its
    /// configuration returned; in a release build nothing is requested
    /// and setup is complete.
    pub fn decide_logging(&mut self) -> (cfg: Option<LogConfig>)
        requires
            old(self).wf(),
            old(self).state == BootState::LogDecisionPending,
        ensures
            final(self).wf(),
            final(self).mode == old(self).mode,
            final(self).window_present == old(self).window_present,
            final(self).maximize_requests == old(self).maximize_requests,
            final(self).run_entered == old(self).run_entered,
            old(self).mode == BuildMode::Debug ==> {
                &&& cfg == Some(LogConfig { min_severity: Severity::Info })
                &&& final(self).log_config == cfg
                &&& final(self).log_attachments == 1
                &&& final(self).state == BootState::LogAttachPending
            },
            old(self).mode == BuildMode::Release ==> {
                &&& cfg is None
                &&& final(self).log_config is None
                &&& final(self).log_attachments == 0
                &&& final(self).state == BootState::ReadyToRun
            },
    {
        match self.mode {
            BuildMode::Debug => {
                let cfg = LogConfig { min_severity: Severity::Info };
                self.log_config = Some(cfg);
                self.log_attachments = self.log_attachments + 1;
                self.state = BootState::LogAttachPending;
                Some(cfg)
            },
            BuildMode::Release => {
                self.state = BootState::ReadyToRun;
                None
            },
        }
    }

    /// Record the outcome of the log attachment. Success completes
    /// setup; failure is fatal.
    pub fn log_attach_finished(&mut self, ok: bool)
        requires
            old(self).wf(),
            old(self).state == BootState::LogAttachPending,
        ensures
            final(self).wf(),
            *final(self) == (Bootstrapper {
                state: if ok {
                    BootState::ReadyToRun
                } else {
                    BootState::Failed(FailReason::LogAttachFailed)
                },
                ..*old(self)
            }),
    {
        if ok {
            self.state = BootState::ReadyToRun;
        } else {
            self.state = BootState::Failed(FailReason::LogAttachFailed);
        }
    }

    /// Hand control to the host run loop. Only a completed setup may do
    /// so; the call blocks for the life of the process on the host side.
    pub fn enter_run_loop(&mut self)
        requires
            old(self).wf(),
            old(self).state == BootState::ReadyToRun,
        ensures
            final(self).wf(),
            *final(self) == (Bootstrapper {
                state: BootState::Running,
                run_entered: true,
                ..*old(self)
            }),
    {
        self.state = BootState::Running;
        self.run_entered = true;
    }

    /// Record the outcome of the run loop. A normal return ends the
    /// process; a failure to run is fatal.
    pub fn run_loop_finished(&mut self, ok: bool)
        requires
            old(self).wf(),
            old(self).state == BootState::Running,
        ensures
            final(self).wf(),
            *final(self) == (Bootstrapper {
                state: if ok {
                    BootState::Exited
                } else {
                    BootState::Failed(FailReason::RunLoopFailed)
                },
                ..*old(self)
            }),
    {
        if ok {
            self.state = BootState::Exited;
        } else {
            self.state = BootState::Failed(FailReason::RunLoopFailed);
        }
    }
}

/// Whether setup gets past the window step: it does unless a present
/// main window fails to maximize.
pub open spec fn setup_reaches_log_decision(window_present: bool, maximize_ok: bool) -> bool {
    !window_present || maximize_ok
}

/// Whether setup completes: the window step passes, and in a debug
/// build the log attachment succeeds as well.
pub open spec fn setup_succeeds(
    mode: BuildMode,
    window_present: bool,
    maximize_ok: bool,
    log_attach_ok: bool,
) -> bool {
    &&& setup_reaches_log_decision(window_present, maximize_ok)
    &&& (mode == BuildMode::Release || log_attach_ok)
}

/// The whole bootstrap sequence, with the host runtime's answers as
/// arguments: whether the main window was present, and whether each of
/// the requests the sequence can issue succeeded. An argument whose
/// request is never issued is ignored. The result is the bootstrapper
/// as it stands when the process is about to exit.
pub fn run(
    mode: BuildMode,
    window_present: bool,
    maximize_ok: bool,
    log_attach_ok: bool,
    run_loop_ok: bool,
) -> (b: Bootstrapper)
    ensures
        b.wf(),
        b.mode == mode,
        b.window_present == Some(window_present),
        b.maximize_requests == (if window_present {
            1u64
        } else {
            0u64
        }),
        window_present && !maximize_ok ==> b.state == BootState::Failed(
            FailReason::MaximizeFailed,
        ),
        setup_reaches_log_decision(window_present, maximize_ok) ==> b.log_attachments == (
        if mode == BuildMode::Debug {
            1u64
        } else {
            0u64
        }),
        setup_reaches_log_decision(window_present, maximize_ok) && mode == BuildMode::Debug
            ==> b.log_config == Some(LogConfig { min_severity: Severity::Info }),
        mode == BuildMode::Release ==> b.log_attachments == 0 && b.log_config is None,
        setup_reaches_log_decision(window_present, maximize_ok) && mode == BuildMode::Debug
            && !log_attach_ok ==> b.state == BootState::Failed(FailReason::LogAttachFailed),
        b.run_entered == setup_succeeds(mode, window_present, maximize_ok, log_attach_ok),
        setup_succeeds(mode, window_present, maximize_ok, log_attach_ok) && run_loop_ok
            ==> b.state == BootState::Exited,
        setup_succeeds(mode, window_present, maximize_ok, log_attach_ok) && !run_loop_ok
            ==> b.state == BootState::Failed(FailReason::RunLoopFailed),
{
    let mut b = Bootstrapper::new(mode);
    b.dialog_registered();
    b.fs_registered();
    let maximize_now = b.window_looked_up(window_present);
    if maximize_now {
        b.maximize_finished(maximize_ok);
    }
    if matches!(b.state, BootState::LogDecisionPending) {
        let cfg = b.decide_logging();
        if cfg.is_some() {
            b.log_attach_finished(log_attach_ok);
        }
    }
    if matches!(b.state, BootState::ReadyToRun) {
        b.enter_run_loop();
        b.run_loop_finished(run_loop_ok);
    }
    b
}

/// A present main window receives exactly one maximize request.
pub proof fn lemma_present_window_maximized_once(b: Bootstrapper)
    requires
        b.wf(),
        b.window_present == Some(true),
    ensures
        b.maximize_requests == 1,
{
}

/// An absent main window receives no maximize request, and its absence
/// never turns into a failure.
pub proof fn lemma_absent_window_skips_maximize(b: Bootstrapper)
    requires
        b.wf(),
        b.window_present == Some(false),
    ensures
        b.maximize_requests == 0,
        b.state != BootState::Failed(FailReason::MaximizeFailed),
{
}

/// Once a debug build has made its logging decision, the log plugin has
/// been requested exactly once, at informational minimum severity.
pub proof fn lemma_debug_logging_attached_once(b: Bootstrapper)
    requires
        b.wf(),
        b.mode == BuildMode::Debug,
        b.log_decided(),
    ensures
        b.log_attachments == 1,
        b.log_config == Some(LogConfig { min_severity: Severity::Info }),
{
}

/// A release build never requests the log plugin, in any state.
pub proof fn lemma_release_never_logs(b: Bootstrapper)
    requires
        b.wf(),
        b.mode == BuildMode::Release,
    ensures
        b.log_attachments == 0,
        b.log_config is None,
{
}

/// A setup failure keeps the run loop from ever being entered.
pub proof fn lemma_setup_failure_blocks_run_loop(b: Bootstrapper)
    requires
        b.wf(),
        b.state == BootState::Failed(FailReason::MaximizeFailed) || b.state == BootState::Failed(
            FailReason::LogAttachFailed,
        ),
    ensures
        !b.run_entered,
{
}

} // verus!
