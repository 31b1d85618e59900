use amble::args::Args;
use amble::gate::{check_artifacts, destructive_prompt_required, gate_outcome, GateOutcome};

fn entries(names: &[&str]) -> Vec<String> {
    names.iter().map(|n| n.to_string()).collect()
}

#[test]
fn test_check_artifacts_clean() {
    assert!(check_artifacts(&entries(&[])).is_ok());
    assert!(check_artifacts(&entries(&["README.md", "notes.txt"])).is_ok());
}

#[test]
fn test_conflict_detection() {
    let r = check_artifacts(&entries(&["README.md", "Cargo.toml", "src"]));
    let e = r.expect_err("a manifest file must be detected as a conflict");
    assert_eq!(e.entry, "Cargo.toml");

    for marker in ["Cargo.toml", "Cargo.lock", "src", "target"] {
        let r = check_artifacts(&entries(&[marker]));
        assert_eq!(r.expect_err("marker must conflict").entry, marker);
    }

    // a non-overwrite run stops on the conflict whatever the answers and mode
    for dry_run in [false, true] {
        for answer in [false, true] {
            assert_eq!(
                gate_outcome(false, dry_run, true, answer, answer),
                GateOutcome::Conflict
            );
        }
    }
}

#[test]
fn test_overwrite_decline_aborts() {
    // overwrite requested but not confirmed: a clean abort, never a conflict
    for dry_run in [false, true] {
        for has_conflict in [false, true] {
            for destructive in [false, true] {
                assert_eq!(
                    gate_outcome(true, dry_run, has_conflict, false, destructive),
                    GateOutcome::Declined
                );
            }
        }
    }
}

#[test]
fn test_gate_proceeds() {
    // overwrite confirmed wins even over a conflict
    assert_eq!(gate_outcome(true, false, true, true, false), GateOutcome::Proceed);
    // a clean non-dry run needs the destructive confirmation
    assert_eq!(gate_outcome(false, false, false, true, true), GateOutcome::Proceed);
    assert_eq!(gate_outcome(false, false, false, false, false), GateOutcome::Declined);
    // a clean dry run proceeds without any confirmation
    assert_eq!(gate_outcome(false, true, false, false, false), GateOutcome::Proceed);
}

#[test]
fn test_destructive_prompt_required() {
    assert!(destructive_prompt_required(false, false, false));
    assert!(!destructive_prompt_required(true, false, false));
    assert!(!destructive_prompt_required(false, true, false));
    assert!(!destructive_prompt_required(false, false, true));
}

#[test]
fn test_args_ci_selection() {
    let base = Args {
        v: 0,
        dry_run: false,
        overwrite: false,
        name: "example".to_string(),
        with_ci: false,
        ci_yml: None,
        project_dir: ".".to_string(),
    };
    assert!(!base.wants_ci());
    assert!(!base.wants_custom_ci());

    let with_ci = Args { with_ci: true, ..base.clone() };
    assert!(with_ci.wants_ci());
    assert!(!with_ci.wants_custom_ci());

    let custom = Args { ci_yml: Some("my.yml".to_string()), ..base };
    assert!(custom.wants_ci());
    assert!(custom.wants_custom_ci());
}
