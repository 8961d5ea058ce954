use hostfix::paths::{
    deployment_targets, marker_path, sensitive_paths, shadow_fix_version, stamp_path_for,
    target_path, REQUIRED_MODE, SENSITIVE_PATH_COUNT,
};

#[test]
fn sensitive_path_set_is_the_shadow_family() {
    let v = sensitive_paths();
    assert_eq!(v.len(), SENSITIVE_PATH_COUNT);
    assert_eq!(v, vec!["etc/shadow", "etc/shadow-", "etc/gshadow", "etc/gshadow-"]);
}

#[test]
fn required_mode_is_owner_only() {
    assert_eq!(REQUIRED_MODE, 0o600);
}

#[test]
fn marker_path_is_the_managed_host_marker() {
    assert_eq!(marker_path(), "/run/ostree-booted");
}

#[test]
fn stamp_path_is_versioned_under_etc() {
    assert_eq!(
        stamp_path_for(shadow_fix_version()),
        "/etc/.shadow-mode-fixed2.stamp"
    );
    assert_eq!(stamp_path_for("another-fix1"), "/etc/.another-fix1.stamp");
}

#[test]
fn target_path_joins_root_and_relative_path() {
    assert_eq!(target_path("/ostree/deploy/os/deploy/a.0", "etc/shadow"),
        "/ostree/deploy/os/deploy/a.0/etc/shadow");
}

#[test]
fn deployment_targets_cover_every_sensitive_path() {
    let v = deployment_targets("/d");
    assert_eq!(
        v,
        vec!["/d/etc/shadow", "/d/etc/shadow-", "/d/etc/gshadow", "/d/etc/gshadow-"]
    );
}
