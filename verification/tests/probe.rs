use daedalus::probe::{check_dependencies, DependencyStatus};

#[test]
fn report_has_exactly_three_flags() {
    // Every combination of lookup outcomes lands in the three flags, each
    // flag recording exactly the outcome handed in for its tool.
    for &iverilog in &[false, true] {
        for &vvp in &[false, true] {
            for &gtkwave in &[false, true] {
                let s = DependencyStatus::new(iverilog, vvp, gtkwave);
                assert_eq!(s.iverilog, iverilog);
                assert_eq!(s.vvp, vvp);
                assert_eq!(s.gtkwave, gtkwave);
                // A report is nothing but its three flags.
                assert_eq!(s, DependencyStatus::new(s.iverilog, s.vvp, s.gtkwave));
            }
        }
    }
}

#[test]
fn waveform_viewer_only() {
    // Lookups found only the waveform viewer: its flag alone is true.
    let s = DependencyStatus::new(false, false, true);
    assert!(!s.iverilog);
    assert!(!s.vvp);
    assert!(s.gtkwave);
}

#[test]
fn probe_is_idempotent() {
    // Repeated probes in an unchanged environment yield identical reports.
    let first = check_dependencies();
    let second = check_dependencies();
    assert_eq!(first, second);
}

#[test]
fn probe_always_returns_complete_report() {
    // The probe never fails: whatever is installed, a full report comes back
    // and a report clones to itself.
    let s = check_dependencies();
    assert_eq!(s.clone(), s);
}

#[test]
fn lookup_finds_present_and_misses_absent() {
    // The search-path lookup the probe relies on: a shell is resolvable from
    // the standard binary directories, a nonsense name is not.
    assert!(which::which_in("sh", Some("/usr/bin:/bin"), "/").is_ok());
    assert!(which::which_in("no-such-tool-anywhere", Some("/usr/bin:/bin"), "/").is_err());
}
