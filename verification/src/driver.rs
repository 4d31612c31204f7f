//! Decisions the drivers around the library make: which mode the program
//! runs in, and which console signals count as a stop request for the
//! standalone fallback that substitutes a console interrupt for the service
//! control manager.

use vstd::prelude::*;

use crate::status::StatusUpdater;

verus! {

/// Console signal for an interrupt from the keyboard.
pub const CTRL_C_EVENT: u32 = 0;
/// Console signal for a break from the keyboard.
pub const CTRL_BREAK_EVENT: u32 = 1;
/// Console signal for the console window closing.
pub const CTRL_CLOSE_EVENT: u32 = 2;
/// Console signal for the user logging off.
pub const CTRL_LOGOFF_EVENT: u32 = 5;
/// Console signal for the system shutting down.
pub const CTRL_SHUTDOWN_EVENT: u32 = 6;

/// The console signals the standalone fallback treats as a stop request.
pub open spec fn stop_signal(control_type: u32) -> bool {
    ||| control_type == CTRL_C_EVENT
    ||| control_type == CTRL_BREAK_EVENT
    ||| control_type == CTRL_CLOSE_EVENT
    ||| control_type == CTRL_LOGOFF_EVENT
    ||| control_type == CTRL_SHUTDOWN_EVENT
}

/// Decides whether a console signal stops a standalone service run.
pub fn is_stop_signal(control_type: u32) -> (r: bool)
    ensures
        r == stop_signal(control_type),
{
    control_type == CTRL_C_EVENT || control_type == CTRL_BREAK_EVENT || control_type
        == CTRL_CLOSE_EVENT || control_type == CTRL_LOGOFF_EVENT || control_type
        == CTRL_SHUTDOWN_EVENT
}

/// How the program is to run, decided from its command line.
#[derive(Clone, Copy, Debug, PartialEq, Eq, Structural)]
pub enum RunMode {
    /// Print the detailed usage text and exit.
    Help,
    /// Run the handler directly, outside the service control manager.
    Standalone,
    /// Run under the service control manager.
    Service,
    /// Unexpected arguments: print the short usage text and exit.
    UsageError,
}

/// The mode the parsed command line selects: help first, then the standalone
/// flag, then a complaint about stray arguments, and the service manager
/// path only for a bare invocation.
pub open spec fn run_mode(help: bool, standalone: bool, extra_args: bool) -> RunMode {
    if help {
        RunMode::Help
    } else if standalone {
        RunMode::Standalone
    } else if extra_args {
        RunMode::UsageError
    } else {
        RunMode::Service
    }
}

/// Decides the run mode from what the command-line parser found: whether
/// help was asked for, whether the standalone flag was given, and whether
/// stray free arguments remain.
pub fn choose_run_mode(help: bool, standalone: bool, extra_args: bool) -> (r: RunMode)
    ensures
        r == run_mode(help, standalone, extra_args),
{
    if help {
        RunMode::Help
    } else if standalone {
        RunMode::Standalone
    } else if extra_args {
        RunMode::UsageError
    } else {
        RunMode::Service
    }
}

/// What the service entry point receives: the status updater for the run and
/// the raw startup arguments, currently unused beyond presence.
pub struct ServiceArgs {
    pub status_updater: StatusUpdater,
    pub args: Vec<String>,
}

} // verus!
