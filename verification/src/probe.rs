//! The dependency prober: checks which of the known external tools are
//! resolvable on the host's executable search path.

use vstd::prelude::*;

verus! {

/// Availability report for the fixed set of known tools: the simulator
/// (`iverilog`), its runtime (`vvp`), and the waveform viewer (`gtkwave`).
/// One boolean flag per tool and nothing else; created fresh on each probe
/// and immutable once built.
#[derive(Clone, Copy, PartialEq, Eq, Structural, Debug)]
pub struct DependencyStatus {
    pub iverilog: bool,
    pub vvp: bool,
    pub gtkwave: bool,
}

impl DependencyStatus {
    /// Assemble a report from the three lookup outcomes. Each flag records
    /// exactly the outcome handed in for its tool.
    pub fn new(iverilog: bool, vvp: bool, gtkwave: bool) -> (r: DependencyStatus)
        ensures
            r.iverilog == iverilog,
            r.vvp == vvp,
            r.gtkwave == gtkwave,
    {
        DependencyStatus { iverilog, vvp, gtkwave }
    }
}

/// A report carries the three flags and nothing more: two reports whose
/// flags agree are the same report. A probe's result is thus a function of
/// the three lookup outcomes alone, so repeated probes return identical
/// reports whenever their lookups, which read only the host environment,
/// come out the same.
pub proof fn lemma_status_determined_by_flags(a: DependencyStatus, b: DependencyStatus)
    requires
        a.iverilog == b.iverilog,
        a.vvp == b.vvp,
        a.gtkwave == b.gtkwave,
    ensures
        a == b,
{
}

/// Relies on which::which: resolves a bare name against the directories of
/// the search-path environment variable under the platform's executable
/// rules, returning Ok exactly when a matching executable was found. The
/// outcome depends on the host environment, so nothing is promised of it;
/// any OS-level failure during the lookup comes back as false, like absence.
#[verifier::external_body]
fn tool_on_path(name: &str) -> bool {
    which::which(name).is_ok()
}

/// Probe the fixed set of known tools. The lookups are independent and
/// order-insensitive; a failed lookup only makes that tool's flag false,
/// so the probe cannot fail and always returns a complete report whose
/// flags are exactly the three lookup outcomes.
pub fn check_dependencies() -> DependencyStatus {
    let iverilog = tool_on_path("iverilog");
    let vvp = tool_on_path("vvp");
    let gtkwave = tool_on_path("gtkwave");
    DependencyStatus::new(iverilog, vvp, gtkwave)
}

} // verus!
