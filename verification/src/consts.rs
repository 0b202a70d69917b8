//! Application-wide constants.

use vstd::prelude::*;

verus! {

/// Application name.
pub const APP_NAME: &'static str = "dsk";

/// Target filename to kill.
pub const TARGET_FILE: &'static str = ".DS_Store";

/// launchd service identifier.
pub const SERVICE_ID: &'static str = "com.dsk.guard";

/// Log output paths.
pub const LOG_STDOUT: &'static str = "/tmp/dsk.out.log";

pub const LOG_STDERR: &'static str = "/tmp/dsk.err.log";

/// launchd plist filename.
pub const PLIST_FILENAME: &'static str = "com.dsk.guard.plist";

/// Subdirectory of the system temporary directory that holds the scan cache.
pub const CACHE_SUBDIR: &'static str = "dsk-cache";

/// How long a cache entry stays usable; the mtime check provides freshness
/// within that window.
pub const CACHE_TTL_SECS: u64 = 3600;

} // verus!
