//! The validated, immutable parameters of one supervised run.

use vstd::prelude::*;

verus! {

/// Configuration of one run: how often to attempt the command, how long to
/// back off between attempts, and the command itself.
///
/// Durations are carried as whole nanoseconds. The embedding program parses
/// the human-readable duration syntax and converts; the machine only compares
/// and multiplies.
pub struct RunConfig {
    /// Total number of attempts; at least 1.
    pub attempts: u32,
    /// Delay before the first retry, in nanoseconds.
    pub initial_delay_ns: u64,
    /// Factor applied to the delay after each completed backoff.
    pub delay_multiplier: u32,
    /// Suppress retry/backoff/exhaustion narration; never suppresses
    /// spawn-failure or wait-failure reports.
    pub quiet: bool,
    /// The command to run: the executable followed by its arguments,
    /// non-empty, passed through with no shell interpretation.
    pub command: Vec<String>,
}

impl RunConfig {
    /// A configuration is well formed when it asks for at least one attempt
    /// and names a command to run.
    pub open spec fn wf(self) -> bool {
        &&& self.attempts >= 1
        &&& self.command@.len() >= 1
    }
}

} // verus!
