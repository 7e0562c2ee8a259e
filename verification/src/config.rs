//! Fixed configuration limits of the download pipeline.

use vstd::prelude::*;

verus! {

/// Milliseconds between two forced animation ticks of a per-item indicator.
pub const PROGRESS_BAR_TICK_TIME_MS: u64 = 100;

/// Upper bound, in characters, on a directory name made from a gallery title.
pub const MAX_FILE_NAME_LEN: usize = 255;

/// Milliseconds a single download attempt may take before it is timed out.
pub const REQUEST_READ_TIMEOUT_MS: u64 = 10000;

/// How many attempts a single download gets before its failure is reported.
pub const DOWNLOAD_RETRIES: usize = 3;

} // verus!
