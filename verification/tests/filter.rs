use omk::config::FilterConfig;
use omk::filter::{
    evaluate, is_allowed_shell_caller, FilterDecision, FilterReason, PackageResolution,
};

const APP: u32 = 10123;

fn config() -> FilterConfig {
    FilterConfig {
        enabled: true,
        allow_shell_caller: false,
        block_android_package: true,
        allow_unknown_package: false,
        deny_packages: vec![],
    }
}

fn names(names: &[&str]) -> Vec<String> {
    names.iter().map(|name| name.to_string()).collect()
}

fn decide(
    scoop: &[&str],
    config: &FilterConfig,
    uid: u32,
    packages: Option<&[&str]>,
) -> FilterDecision {
    let resolution = match packages {
        Some(packages) => PackageResolution::Known(names(packages)),
        None => PackageResolution::Unknown,
    };
    let decision = evaluate(&names(scoop), config, uid, resolution);
    assert_eq!(decision.packages, names(packages.unwrap_or(&[])));
    assert_eq!(
        decision.allowed,
        matches!(decision.reason, FilterReason::Disabled | FilterReason::Allowed)
    );
    decision
}

#[test]
fn everyone_is_served_while_the_filter_is_disabled() {
    let config = FilterConfig {
        enabled: false,
        deny_packages: names(&["com.a"]),
        ..config()
    };
    for uid in [0, 1000, 2000, APP] {
        for packages in [None, Some(&["com.a", "android"][..])] {
            let decision = decide(&[], &config, uid, packages);
            assert_eq!(decision.reason, FilterReason::Disabled);
        }
    }
}

#[test]
fn shell_is_admitted_only_when_asked_for() {
    let open = FilterConfig {
        allow_shell_caller: true,
        ..config()
    };
    assert!(is_allowed_shell_caller(&open, 2000));
    assert!(!is_allowed_shell_caller(&open, 0));
    assert!(!is_allowed_shell_caller(&open, 2001));
    assert!(!is_allowed_shell_caller(&open, 102000));
    assert!(!is_allowed_shell_caller(&config(), 2000));

    assert_eq!(decide(&[], &open, 2000, None).reason, FilterReason::Allowed);
    assert_eq!(
        decide(&[], &open, 2000, Some(&["android"])).reason,
        FilterReason::Allowed
    );
    assert_eq!(
        decide(&[], &open, 0, None).reason,
        FilterReason::RejectedAndroidPackage
    );
    assert_eq!(
        decide(&["com.android.shell"], &config(), 2000, Some(&["com.android.shell"])).reason,
        FilterReason::RejectedAndroidPackage
    );
}

#[test]
fn system_uids_of_every_user_are_blocked() {
    for uid in [0, 1000, 9999, 100000, 109999, 1000000] {
        assert_eq!(
            decide(&["com.a"], &config(), uid, Some(&["com.a"])).reason,
            FilterReason::RejectedAndroidPackage
        );
    }
    for uid in [10000, 99999, 110000, 199999] {
        assert_eq!(
            decide(&["com.a"], &config(), uid, Some(&["com.a"])).reason,
            FilterReason::Allowed
        );
    }
    let open = FilterConfig {
        block_android_package: false,
        ..config()
    };
    assert_eq!(
        decide(&["com.a"], &open, 1000, Some(&["com.a"])).reason,
        FilterReason::Allowed
    );
}

#[test]
fn packages_of_android_are_blocked() {
    for name in ["android", "android.ext.services", "android."] {
        assert_eq!(
            decide(&[name, "com.a"], &config(), APP, Some(&["com.a", name])).reason,
            FilterReason::RejectedAndroidPackage
        );
    }
    for name in ["androidx", "com.android", "Android", "androi"] {
        assert_eq!(
            decide(&[name], &config(), APP, Some(&[name])).reason,
            FilterReason::Allowed
        );
    }
    let open = FilterConfig {
        block_android_package: false,
        ..config()
    };
    assert_eq!(
        decide(&["android"], &open, APP, Some(&["android"])).reason,
        FilterReason::Allowed
    );
}

#[test]
fn unknown_packages_need_permission() {
    assert_eq!(
        decide(&["com.a"], &config(), APP, None).reason,
        FilterReason::RejectedUnknownPackage
    );
    let open = FilterConfig {
        allow_unknown_package: true,
        ..config()
    };
    assert_eq!(decide(&[], &open, APP, None).reason, FilterReason::Allowed);
    assert_eq!(
        decide(&[], &open, 1000, None).reason,
        FilterReason::RejectedAndroidPackage
    );
}

#[test]
fn denylist_comes_before_the_scope() {
    let config = FilterConfig {
        deny_packages: names(&["com.b"]),
        ..config()
    };
    assert_eq!(
        decide(&["com.a", "com.b"], &config, APP, Some(&["com.a", "com.b"])).reason,
        FilterReason::RejectedByDenylist
    );
    assert_eq!(
        decide(&["com.a"], &config, APP, Some(&["com.a"])).reason,
        FilterReason::Allowed
    );
}

#[test]
fn one_package_in_scope_is_enough() {
    assert_eq!(
        decide(&["com.a"], &config(), APP, Some(&["com.z", "com.a"])).reason,
        FilterReason::Allowed
    );
    assert_eq!(
        decide(&["com.a"], &config(), APP, Some(&["com.z"])).reason,
        FilterReason::RejectedNotInScope
    );
    assert_eq!(
        decide(&["com.a"], &config(), APP, Some(&[])).reason,
        FilterReason::RejectedNotInScope
    );
    assert_eq!(
        decide(&[], &config(), APP, Some(&["com.a"])).reason,
        FilterReason::RejectedNotInScope
    );
}

#[test]
fn wider_scope_and_shorter_denylist_serve_more() {
    let denying = FilterConfig {
        deny_packages: names(&["com.b", "com.c"]),
        ..config()
    };
    let shorter = FilterConfig {
        deny_packages: names(&["com.c"]),
        ..config()
    };
    assert!(!decide(&["com.a"], &denying, APP, Some(&["com.a", "com.b"])).allowed);
    assert!(decide(&["com.a"], &shorter, APP, Some(&["com.a", "com.b"])).allowed);
    assert!(!decide(&["com.x"], &shorter, APP, Some(&["com.a"])).allowed);
    assert!(decide(&["com.x", "com.a"], &shorter, APP, Some(&["com.a"])).allowed);
}
