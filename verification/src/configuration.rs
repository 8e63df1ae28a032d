//! The reduced configuration variant: only the report settings and the
//! per-tool enabled flags, for embeddings that configure nothing else.

use vstd::prelude::*;

use crate::output::ReportFormat;

verus! {

/// `[valgrind]` section options.
pub struct Valgrind {
    pub enabled: bool,
}

impl Default for Valgrind {
    fn default() -> (r: Self)
        ensures
            r.enabled,
    {
        Valgrind { enabled: true }
    }
}

/// `[powerstat]` section options.
pub struct PowerStat {
    pub enabled: bool,
}

impl Default for PowerStat {
    fn default() -> (r: Self)
        ensures
            r.enabled,
    {
        PowerStat { enabled: true }
    }
}

/// `[powertop]` section options.
pub struct PowerTop {
    pub enabled: bool,
}

impl Default for PowerTop {
    fn default() -> (r: Self)
        ensures
            r.enabled,
    {
        PowerTop { enabled: true }
    }
}

/// The reduced configuration: the report directory and format, and one
/// enabled flag per tool.
pub struct Configuration {
    pub report_path: String,
    pub format: ReportFormat,
    pub valgrind: Valgrind,
    pub powerstat: PowerStat,
    pub powertop: PowerTop,
}

impl Configuration {
    /// Whether the memory-check tool runs; a missing section enables it
    /// with default parameters.
    pub fn is_valgrind_enabled(&self) -> (r: bool)
        ensures
            r == self.valgrind.enabled,
    {
        self.valgrind.enabled
    }

    /// Whether the first power-profiling tool runs; a missing section
    /// enables it with default parameters.
    pub fn is_powerstat_enabled(&self) -> (r: bool)
        ensures
            r == self.powerstat.enabled,
    {
        self.powerstat.enabled
    }

    /// Whether the second power-profiling tool runs; a missing section
    /// enables it with default parameters.
    pub fn is_powertop_enabled(&self) -> (r: bool)
        ensures
            r == self.powertop.enabled,
    {
        self.powertop.enabled
    }
}

} // verus!
