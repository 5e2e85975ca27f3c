//! Startup logic for a windowed desktop application.
//!
//! The host GUI runtime (the window registry, the plugins, the run loop)
//! lives outside this crate; what is verified here is every decision the
//! bootstrapper makes on the way from process start to the run loop:
//! which plugins to register, whether to maximize the main window, whether
//! to attach the log plugin and at which severity, and how a startup
//! failure turns into a process exit.

pub mod config;
pub mod machine;
pub mod report;

pub use report::ExitReport;
pub use report::diagnostic;
pub use report::exit_report;
pub use machine::BootState;
pub use machine::Bootstrapper;
pub use machine::FailReason;
pub use machine::run;
pub use config::BuildMode;
pub use config::LogConfig;
pub use config::Severity;
pub use config::allows;
pub use config::main_window_label;
pub use config::severity_rank;
