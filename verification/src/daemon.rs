//! Daemon mode decisions: whether the agent detaches from the terminal and
//! where its log goes before and after doing so.

use vstd::prelude::*;

use crate::cli::BpfAgentArgs;

verus! {

/// Whether the agent detaches from the terminal: daemon mode, unless
/// verbose mode overrides it for interactive debugging.
pub fn should_daemonize(args: &BpfAgentArgs) -> (detach: bool)
    ensures
        detach == (args.daemon && !args.verbose),
{
    args.daemon && !args.verbose
}

/// Whether the logger is set up on stderr before daemonizing: in foreground
/// and verbose mode; a daemon sets it up after detaching, on its log file.
pub fn logs_before_daemonize(args: &BpfAgentArgs) -> (early: bool)
    ensures
        early == !(args.daemon && !args.verbose),
{
    !(args.daemon && !args.verbose)
}

/// How logging runs once the agent is past daemonizing.
#[derive(Debug, Clone, Copy, PartialEq, Eq, Structural)]
pub enum LoggerMode {
    /// Detached: debug-level logging to the redirected log file
    Daemon,
    /// Daemon mode overridden by verbose mode: running in the foreground
    VerboseForeground,
    /// Plain foreground mode
    Foreground,
}

/// The logging mode after daemonizing.
pub fn logger_mode_after_daemonize(args: &BpfAgentArgs) -> (mode: LoggerMode)
    ensures
        mode == (if args.daemon && !args.verbose {
            LoggerMode::Daemon
        } else if args.daemon && args.verbose {
            LoggerMode::VerboseForeground
        } else {
            LoggerMode::Foreground
        }),
{
    if args.daemon && !args.verbose {
        LoggerMode::Daemon
    } else if args.daemon && args.verbose {
        LoggerMode::VerboseForeground
    } else {
        LoggerMode::Foreground
    }
}

} // verus!
