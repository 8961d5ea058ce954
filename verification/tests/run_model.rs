use hostfix::guard::HostContext;
use hostfix::remedy::{remediate_deployment, DeploymentFs, FileStatus};
use hostfix::run::{run, summarize, HostFs, RunStatus};

fn deployment(modes: &[Option<u32>], writable: bool) -> DeploymentFs {
    let files = modes
        .iter()
        .map(|m| match m {
            Some(mode) => FileStatus { present: true, mode: *mode },
            None => FileStatus { present: false, mode: 0 },
        })
        .collect();
    DeploymentFs { files, writable }
}

fn root_ctx() -> HostContext {
    HostContext { marker_present: true, effective_uid: 0 }
}

#[test]
fn fresh_host_gets_fixed_and_stamped() {
    // Three deployments, each with a shadow file at insecure mode 0o644.
    let deployments = vec![
        deployment(&[Some(0o644), Some(0o644), Some(0o644), Some(0o644)], true),
        deployment(&[Some(0o644), None, Some(0o644), None], true),
        deployment(&[Some(0o644), Some(0o600), None, None], true),
    ];
    let host = HostFs { stamp_present: false, deployments };
    let (after, status) = run(&root_ctx(), host);
    assert_eq!(status, RunStatus::Fixed);
    assert!(after.stamp_present);
    for d in &after.deployments {
        for f in &d.files {
            if f.present {
                assert_eq!(f.mode, 0o600);
            }
        }
    }
}

#[test]
fn stamped_host_is_left_alone() {
    let deployments = vec![deployment(&[Some(0o644)], true)];
    let host = HostFs { stamp_present: true, deployments };
    let (after, status) = run(&root_ctx(), host);
    assert_eq!(status, RunStatus::AlreadyFixed);
    assert!(after.stamp_present);
    // No mode-changing operation happened: the insecure mode is untouched.
    assert_eq!(after.deployments[0].files[0].mode, 0o644);
}

#[test]
fn non_root_run_aborts_without_stamp() {
    let ctx = HostContext { marker_present: true, effective_uid: 1000 };
    let deployments = vec![deployment(&[Some(0o644)], true)];
    let host = HostFs { stamp_present: false, deployments };
    let (after, status) = run(&ctx, host);
    assert_eq!(status, RunStatus::InsufficientPrivilege);
    assert!(!after.stamp_present);
    assert_eq!(after.deployments[0].files[0].mode, 0o644);
}

#[test]
fn unmanaged_host_run_mutates_nothing() {
    let ctx = HostContext { marker_present: false, effective_uid: 0 };
    let deployments = vec![deployment(&[Some(0o644), None], true)];
    let host = HostFs { stamp_present: false, deployments };
    let (after, status) = run(&ctx, host);
    assert_eq!(status, RunStatus::NotManagedHost);
    assert!(!after.stamp_present);
    assert_eq!(after.deployments[0].files[0].mode, 0o644);
    assert!(!after.deployments[0].files[1].present);
}

#[test]
fn partial_failure_withholds_stamp_and_names_the_failure() {
    let deployments = vec![
        deployment(&[Some(0o644)], true),
        deployment(&[Some(0o644)], true),
        deployment(&[Some(0o644)], false), // e.g. a read-only mount
    ];
    let host = HostFs { stamp_present: false, deployments };
    let (after, status) = run(&root_ctx(), host);
    assert_eq!(status, RunStatus::PartialFailure(vec![2]));
    assert!(!after.stamp_present);
    // The two successes remain corrected; the failed one is untouched.
    assert_eq!(after.deployments[0].files[0].mode, 0o600);
    assert_eq!(after.deployments[1].files[0].mode, 0o600);
    assert_eq!(after.deployments[2].files[0].mode, 0o644);
}

#[test]
fn missing_files_cause_no_error() {
    let deployments = vec![deployment(&[None, None, None, None], true)];
    let host = HostFs { stamp_present: false, deployments };
    let (after, status) = run(&root_ctx(), host);
    assert_eq!(status, RunStatus::Fixed);
    assert!(after.stamp_present);
    for f in &after.deployments[0].files {
        assert!(!f.present);
    }
}

#[test]
fn running_twice_equals_running_once() {
    let deployments = vec![
        deployment(&[Some(0o644), Some(0o777)], true),
        deployment(&[Some(0o644)], false),
    ];
    let host = HostFs { stamp_present: false, deployments };
    let (once, _) = run(&root_ctx(), host);
    let snapshot: Vec<Vec<FileStatus>> =
        once.deployments.iter().map(|d| d.files.clone()).collect();
    let stamp_once = once.stamp_present;
    let (twice, _) = run(&root_ctx(), once);
    let snapshot2: Vec<Vec<FileStatus>> =
        twice.deployments.iter().map(|d| d.files.clone()).collect();
    assert_eq!(snapshot, snapshot2);
    assert_eq!(stamp_once, twice.stamp_present);
}

#[test]
fn remediation_of_one_deployment_is_exact() {
    let d = deployment(&[Some(0o644), None], true);
    let (fixed, ok) = remediate_deployment(&d);
    assert!(ok);
    assert_eq!(fixed.files[0], FileStatus { present: true, mode: 0o600 });
    assert_eq!(fixed.files[1], FileStatus { present: false, mode: 0 });
}

#[test]
fn unwritable_deployment_is_reported_and_untouched() {
    let d = deployment(&[Some(0o644)], false);
    let (fixed, ok) = remediate_deployment(&d);
    assert!(!ok);
    assert_eq!(fixed.files[0], FileStatus { present: true, mode: 0o644 });
}

#[test]
fn summarize_reports_exact_failures() {
    let (ok, failed) = summarize(&vec![true, false, true, false]);
    assert!(!ok);
    assert_eq!(failed, vec![1, 3]);

    let (ok, failed) = summarize(&vec![true, true]);
    assert!(ok);
    assert!(failed.is_empty());

    let (ok, failed) = summarize(&vec![]);
    assert!(ok);
    assert!(failed.is_empty());
}
