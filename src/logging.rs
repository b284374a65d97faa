//! Process-wide log configuration: which sources log at which level, and
//! a guard that lets the subscriber be installed only once.

use vstd::prelude::*;

verus! {

/// Log levels, from the most to the least severe.
#[derive(PartialEq, Eq, Structural, Clone, Copy, Debug)]
pub enum LogLevel {
    Error,
    Warn,
    Info,
    Debug,
    Trace,
}

/// The most verbose level recorded for one log source.
#[derive(Debug)]
pub struct TargetLevel {
    pub target: String,
    pub level: LogLevel,
}

/// A per-source level filter: the listed sources log at their own level,
/// every other source at `default_level`.
#[derive(Debug)]
pub struct LogFilter {
    pub targets: Vec<TargetLevel>,
    pub default_level: LogLevel,
}

/// The log source of the HTTP client and transport library.
pub const TRANSPORT_TARGET: &'static str = "hyper";

/// The relay's filter: the HTTP transport at `Info` and coarser,
/// everything else at `Debug` and coarser.
pub fn relay_log_filter() -> (r: LogFilter)
    ensures
        r.targets@.len() == 1,
        r.targets@[0].target@ == TRANSPORT_TARGET@,
        r.targets@[0].level == LogLevel::Info,
        r.default_level == LogLevel::Debug,
{
    let mut targets: Vec<TargetLevel> = Vec::new();
    targets.push(TargetLevel { target: String::from_str(TRANSPORT_TARGET), level: LogLevel::Info });
    LogFilter { targets, default_level: LogLevel::Debug }
}

/// Records whether the process-wide log subscriber has been installed.
#[derive(Debug)]
pub struct InitGuard {
    pub installed: bool,
}

impl InitGuard {
    /// A guard for a process in which nothing has been installed.
    pub fn new() -> (r: InitGuard)
        ensures
            !r.installed,
    {
        InitGuard { installed: false }
    }

    /// Asks to install the subscriber: `true` exactly when it has not been
    /// installed before, and the guard then counts it as installed.
    pub fn claim(&mut self) -> (r: bool)
        ensures
            r == !old(self).installed,
            final(self).installed,
    {
        let first = !self.installed;
        self.installed = true;
        first
    }
}

/// How many of `n` successive claims on a guard in state `installed`
/// are granted.
pub open spec fn granted_claims(installed: bool, n: nat) -> nat
    decreases n,
{
    if n == 0 {
        0
    } else {
        (if installed { 0nat } else { 1nat }) + granted_claims(true, (n - 1) as nat)
    }
}

/// However often initialisation is requested, the subscriber is installed
/// at most once, and never again once it is in place.
pub proof fn lemma_installed_at_most_once(installed: bool, n: nat)
    ensures
        granted_claims(installed, n) <= 1,
        installed ==> granted_claims(installed, n) == 0,
    decreases n,
{
    if n > 0 {
        lemma_installed_at_most_once(true, (n - 1) as nat);
    }
}

} // verus!
