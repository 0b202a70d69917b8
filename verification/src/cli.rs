//! The command surface, as plain data. The binary parses the command line
//! into these shapes; the library works from them.

use crate::killer::KillOptions;
use vstd::prelude::*;

verus! {

/// Shared arguments for kill/watch commands.
pub struct KillArgs {
    /// Target directory.
    pub path: String,
    /// Recursive deletion.
    pub recursive: bool,
    /// Exclude patterns.
    pub exclude: Vec<String>,
    /// Skip confirmation, delete directly.
    pub yes: bool,
    /// Dry-run: scan only, don't delete.
    pub dry_run: bool,
    /// Quiet mode: suppress file listing.
    pub quiet: bool,
    /// Show execution statistics.
    pub stats: bool,
    /// Force delete git-held target files (default: skip them).
    pub force: bool,
}

/// Arguments shared between the watch command and service install.
pub struct WatchSharedArgs {
    /// Exclude patterns.
    pub exclude: Vec<String>,
    /// Send a system notification on delete.
    pub notify: bool,
    /// Force delete git-held target files.
    pub force: bool,
}

/// Arguments for the watch command.
pub struct WatchArgs {
    /// Target directory.
    pub path: String,
    /// Shared watch options.
    pub options: WatchSharedArgs,
}

/// Service management actions.
pub enum ServiceAction {
    /// Install the service definition.
    Install { paths: Vec<String>, watch_args: WatchSharedArgs },
    /// Uninstall the service definition.
    Uninstall,
    /// Start the service.
    Start,
    /// Stop the service.
    Stop,
    /// Show status.
    Status,
}

/// The subcommands.
pub enum Commands {
    /// Kill target files (default command).
    Kill { args: KillArgs },
    /// Watch a directory and auto-delete target files.
    Watch { args: WatchArgs },
    /// Manage the background service.
    Service { action: ServiceAction },
}

/// The parsed command line.
pub struct Cli {
    pub command: Commands,
}

/// The kill options a command line implies.
pub fn kill_options(args: &KillArgs) -> (r: KillOptions)
    ensures
        r.dry_run == args.dry_run,
        r.quiet == args.quiet,
{
    KillOptions { dry_run: args.dry_run, quiet: args.quiet }
}

} // verus!
