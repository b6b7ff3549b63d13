//! Decides which callers are served.

use vstd::prelude::*;

use crate::config::FilterConfig;

verus! {

/// UID of `shell`.
pub const AID_SHELL: u32 = 2000;

/// First UID that belongs to an application, within the UIDs of one user.
pub const AID_APP_START: u32 = 10000;

/// Number of UIDs that each user has.
pub const AID_USER_OFFSET: u32 = 100000;

/// What is known of the packages behind a UID.
#[derive(Debug, Clone)]
pub enum PackageResolution {
    /// The packages that share the UID.
    Known(Vec<String>),
    /// The packages could not be determined.
    Unknown,
}

/// Why a caller was admitted or turned away.
#[derive(Debug, Clone, Copy, PartialEq, Eq, Structural)]
pub enum FilterReason {
    /// Admitted: callers are not filtered.
    Disabled,
    /// Admitted.
    Allowed,
    /// Turned away as a part of Android itself.
    RejectedAndroidPackage,
    /// Turned away by the denylist.
    RejectedByDenylist,
    /// Turned away because none of its packages is in scope.
    RejectedNotInScope,
    /// Turned away because its packages are not known.
    RejectedUnknownPackage,
}

/// Outcome of filtering a caller.
#[derive(Debug, Clone)]
pub struct FilterDecision {
    /// Whether the caller is served.
    pub allowed: bool,
    /// The rule that decided.
    pub reason: FilterReason,
    /// The packages behind the caller, as far as they are known.
    pub packages: Vec<String>,
}

/// `name` is one of `names`.
pub open spec fn lists(names: Seq<String>, name: Seq<char>) -> bool {
    exists|i: int| 0 <= i < names.len() && (#[trigger] names[i])@ == name
}

/// One of `packages` is one of `names`.
pub open spec fn lists_any(names: Seq<String>, packages: Seq<String>) -> bool {
    exists|i: int| 0 <= i < packages.len() && lists(names, (#[trigger] packages[i])@)
}

/// `name` is `android` itself or below it.
pub open spec fn is_android_name(name: Seq<char>) -> bool {
    name == "android"@ || "android."@.is_prefix_of(name)
}

/// One of `packages` is a part of Android itself.
pub open spec fn has_android_package(packages: Seq<String>) -> bool {
    exists|i: int| 0 <= i < packages.len() && is_android_name((#[trigger] packages[i])@)
}

/// `uid` is below the application UIDs of its user.
pub open spec fn is_system_uid(uid: u32) -> bool {
    uid % AID_USER_OFFSET < AID_APP_START
}

/// `uid` is `shell`, and `config` admits it.
pub open spec fn is_admitted_shell(config: FilterConfig, uid: u32) -> bool {
    config.allow_shell_caller && uid == AID_SHELL
}

/// The packages behind a caller, none where they are not known.
pub open spec fn known_packages(resolution: PackageResolution) -> Seq<String> {
    match resolution {
        PackageResolution::Known(packages) => packages@,
        PackageResolution::Unknown => seq![],
    }
}

/// The rule that decides on a caller. The rules are tried in the order in which they stand here.
pub open spec fn filter_reason(
    scoop: Seq<String>,
    config: FilterConfig,
    uid: u32,
    resolution: PackageResolution,
) -> FilterReason {
    let packages = known_packages(resolution);
    if !config.enabled {
        FilterReason::Disabled
    } else if is_admitted_shell(config, uid) {
        FilterReason::Allowed
    } else if config.block_android_package && is_system_uid(uid) {
        FilterReason::RejectedAndroidPackage
    } else if resolution is Unknown {
        if config.allow_unknown_package {
            FilterReason::Allowed
        } else {
            FilterReason::RejectedUnknownPackage
        }
    } else if config.block_android_package && has_android_package(packages) {
        FilterReason::RejectedAndroidPackage
    } else if lists_any(config.deny_packages@, packages) {
        FilterReason::RejectedByDenylist
    } else if !lists_any(scoop, packages) {
        FilterReason::RejectedNotInScope
    } else {
        FilterReason::Allowed
    }
}

/// A caller is served for this reason.
pub open spec fn admits(reason: FilterReason) -> bool {
    reason == FilterReason::Disabled || reason == FilterReason::Allowed
}

/// Whether `uid` is exactly the `shell` UID (2000) and `allow_shell_caller` is enabled, so that it
/// is admitted regardless of package identity.
///
/// `root` (UID 0) is left out on purpose: `vold`, `init` and other daemons run under it, and their
/// keystore traffic has to reach the system's own keystore for the device to unlock after boot.
pub fn is_allowed_shell_caller(config: &FilterConfig, uid: u32) -> (r: bool)
    ensures
        r == is_admitted_shell(*config, uid),
        r <==> config.allow_shell_caller && uid == 2000,
{
    config.allow_shell_caller && uid == AID_SHELL
}

/// Whether `prefix` starts `s`.
fn starts_with(s: &str, prefix: &str) -> (r: bool)
    ensures
        r == prefix@.is_prefix_of(s@),
{
    let len = prefix.unicode_len();
    if s.unicode_len() < len {
        return false;
    }
    let head = s.substring_char(0, len);
    proof {
        assert(prefix@.is_prefix_of(s@) <==> head@ =~= prefix@);
    }
    head.to_owned() == prefix.to_owned()
}

/// Whether `name` is one of `names`.
fn contains_name(names: &[String], name: &String) -> (r: bool)
    ensures
        r == lists(names@, name@),
{
    for i in 0..names.len()
        invariant
            forall|j: int| 0 <= j < i ==> (#[trigger] names@[j])@ != name@,
    {
        if names[i] == *name {
            return true;
        }
    }
    false
}

/// Whether one of `packages` is one of `names`.
fn contains_any(names: &[String], packages: &Vec<String>) -> (r: bool)
    ensures
        r == lists_any(names@, packages@),
{
    for i in 0..packages.len()
        invariant
            forall|j: int| 0 <= j < i ==> !lists(names@, (#[trigger] packages@[j])@),
    {
        if contains_name(names, &packages[i]) {
            return true;
        }
    }
    false
}

/// Whether one of `packages` is a part of Android itself.
fn contains_android_package(packages: &Vec<String>) -> (r: bool)
    ensures
        r == has_android_package(packages@),
{
    for i in 0..packages.len()
        invariant
            forall|j: int| 0 <= j < i ==> !is_android_name((#[trigger] packages@[j])@),
    {
        if packages[i] == "android".to_owned() || starts_with(packages[i].as_str(), "android.") {
            return true;
        }
    }
    false
}

/// The packages behind a caller, none where they are not known.
fn into_packages(resolution: PackageResolution) -> (r: Vec<String>)
    ensures
        r@ == known_packages(resolution),
{
    match resolution {
        PackageResolution::Known(packages) => packages,
        PackageResolution::Unknown => Vec::new(),
    }
}

/// Decide whether the caller `uid`, behind which stand the packages of `resolution`, is served.
/// `scoop` lists the packages in scope.
pub fn evaluate(
    scoop: &[String],
    config: &FilterConfig,
    uid: u32,
    resolution: PackageResolution,
) -> (r: FilterDecision)
    ensures
        r.reason == filter_reason(scoop@, *config, uid, resolution),
        r.allowed == admits(r.reason),
        r.packages@ == known_packages(resolution),
        r.allowed <==> r.reason == FilterReason::Disabled || r.reason == FilterReason::Allowed,
        r.reason == FilterReason::Disabled <==> !config.enabled,
        resolution matches PackageResolution::Known(packages) ==> r.packages@ == packages@,
        resolution is Unknown ==> r.packages@.len() == 0,
{
    if !config.enabled {
        return FilterDecision {
            allowed: true,
            reason: FilterReason::Disabled,
            packages: into_packages(resolution),
        };
    }
    // The `shell` UID has no package identity of its own. It is what `adb shell`, `rish` and
    // Shizuku over ADB run under, so admitting it lets those testing paths through. This comes
    // before the check for Android's own UIDs on purpose.
    if is_allowed_shell_caller(config, uid) {
        return FilterDecision {
            allowed: true,
            reason: FilterReason::Allowed,
            packages: into_packages(resolution),
        };
    }
    if config.block_android_package && uid % AID_USER_OFFSET < AID_APP_START {
        return FilterDecision {
            allowed: false,
            reason: FilterReason::RejectedAndroidPackage,
            packages: into_packages(resolution),
        };
    }
    let packages = match resolution {
        PackageResolution::Known(packages) => packages,
        PackageResolution::Unknown => {
            let allowed = config.allow_unknown_package;
            return FilterDecision {
                allowed,
                reason: if allowed {
                    FilterReason::Allowed
                } else {
                    FilterReason::RejectedUnknownPackage
                },
                packages: Vec::new(),
            };
        },
    };
    let reason = if config.block_android_package && contains_android_package(&packages) {
        FilterReason::RejectedAndroidPackage
    } else if contains_any(config.deny_packages.as_slice(), &packages) {
        FilterReason::RejectedByDenylist
    } else if !contains_any(scoop, &packages) {
        FilterReason::RejectedNotInScope
    } else {
        FilterReason::Allowed
    };
    FilterDecision { allowed: reason == FilterReason::Allowed, reason, packages }
}

/// A filter that is switched off serves every caller, whatever the scope, the other settings, the
/// UID and the packages, and gives that as the reason. No other filter gives it.
pub proof fn law_disabled_filter_serves_everyone(
    scoop: Seq<String>,
    config: FilterConfig,
    uid: u32,
    resolution: PackageResolution,
)
    ensures
        filter_reason(scoop, config, uid, resolution) == FilterReason::Disabled
            <==> !config.enabled,
        !config.enabled ==> admits(filter_reason(scoop, config, uid, resolution)),
{
}

/// A caller is served if it is admitted or not filtered at all, and every rejection turns it away.
pub proof fn law_rejected_callers_are_not_served(reason: FilterReason)
    ensures
        admits(reason) <==> !(reason == FilterReason::RejectedAndroidPackage || reason
            == FilterReason::RejectedByDenylist || reason == FilterReason::RejectedNotInScope
            || reason == FilterReason::RejectedUnknownPackage),
{
}

/// `shell` is the UID 2000 and no other, and is admitted exactly if that is asked for, whether or not
/// callers are filtered.
pub proof fn law_shell_is_one_uid(config: FilterConfig, uid: u32)
    ensures
        is_admitted_shell(config, uid) <==> config.allow_shell_caller && uid == 2000,
{
}

/// The packages behind a caller are reported as they were resolved, every one and in order.
pub proof fn law_packages_are_reported_as_resolved(packages: Vec<String>)
    ensures
        known_packages(PackageResolution::Known(packages)) == packages@,
        known_packages(PackageResolution::Unknown).len() == 0,
{
}

/// The `shell` UID is 2000. It is served if that is asked for, whatever packages stand behind it,
/// and being asked for does not make a difference to any other UID.
pub proof fn law_shell_is_served_when_asked_for(
    scoop: Seq<String>,
    config: FilterConfig,
    uid: u32,
    resolution: PackageResolution,
)
    requires
        config.enabled,
        config.allow_shell_caller,
    ensures
        uid == 2000 ==> filter_reason(scoop, config, uid, resolution) == FilterReason::Allowed,
        uid != 2000 ==> filter_reason(scoop, config, uid, resolution) == filter_reason(
            scoop,
            FilterConfig { allow_shell_caller: false, ..config },
            uid,
            resolution,
        ),
{
}

/// A caller whose packages are not known is turned away as such if and only if it is filtered, not
/// the `shell` UID that is asked for, not a blocked system UID, and unknown callers are not
/// admitted.
pub proof fn law_unknown_package_is_the_reason(
    scoop: Seq<String>,
    config: FilterConfig,
    uid: u32,
    resolution: PackageResolution,
)
    ensures
        filter_reason(scoop, config, uid, resolution) == FilterReason::RejectedUnknownPackage <==> {
            &&& config.enabled
            &&& !(config.allow_shell_caller && uid == 2000)
            &&& !(config.block_android_package && uid % 100000 < 10000)
            &&& resolution is Unknown
            &&& !config.allow_unknown_package
        },
{
}

/// A caller is turned away as a part of Android if and only if those are blocked and either its UID
/// is below 10000 among the 100000 of its user, or one of its packages is called `android` or has a
/// name that starts with `android.`.
pub proof fn law_android_is_the_reason(
    scoop: Seq<String>,
    config: FilterConfig,
    uid: u32,
    resolution: PackageResolution,
)
    ensures
        filter_reason(scoop, config, uid, resolution) == FilterReason::RejectedAndroidPackage <==> {
            &&& config.enabled
            &&& !(config.allow_shell_caller && uid == 2000)
            &&& config.block_android_package
            &&& uid % 100000 < 10000 || (resolution matches PackageResolution::Known(packages)
                && exists|i: int|
                0 <= i < packages@.len() && ((#[trigger] packages@[i])@ == "android"@ || (
                packages@[i]@.len() >= 8 && packages@[i]@.subrange(0, 8) == "android."@)))
        },
{
    reveal_strlit("android.");
    if let PackageResolution::Known(packages) = resolution {
        assert forall|i: int| 0 <= i < packages@.len() implies is_android_name(
            (#[trigger] packages@[i])@,
        ) == (packages@[i]@ == "android"@ || (packages@[i]@.len() >= 8
            && packages@[i]@.subrange(0, 8) == "android."@)) by {
            let name = packages@[i]@;
            if name.len() >= 8 {
                assert("android."@.is_prefix_of(name) <==> name.subrange(0, 8) =~= "android."@);
            }
        }
    }
}

/// A caller that none of the rules before stops is turned away by the denylist if and only if one
/// of its packages is on it, and for want of scope if and only if none is denied and none is in
/// scope. Otherwise it is served.
pub proof fn law_denylist_and_scope_decide(
    scoop: Seq<String>,
    config: FilterConfig,
    uid: u32,
    packages: Vec<String>,
)
    requires
        config.enabled,
        !(config.allow_shell_caller && uid == 2000),
        filter_reason(scoop, config, uid, PackageResolution::Known(packages))
            != FilterReason::RejectedAndroidPackage,
    ensures
        ({
            let reason = filter_reason(scoop, config, uid, PackageResolution::Known(packages));
            let denied = exists|i: int, j: int|
                0 <= i < packages@.len() && 0 <= j < config.deny_packages@.len() && (
                #[trigger] packages@[i])@ == (#[trigger] config.deny_packages@[j])@;
            let in_scope = exists|i: int, j: int|
                0 <= i < packages@.len() && 0 <= j < scoop.len() && (#[trigger] packages@[i])@ == (
                #[trigger] scoop[j])@;
            &&& reason == FilterReason::RejectedByDenylist <==> denied
            &&& reason == FilterReason::RejectedNotInScope <==> !denied && !in_scope
            &&& reason == FilterReason::Allowed <==> !denied && in_scope
        }),
{
    let denied = config.deny_packages@;
    lemma_lists_any(denied, packages@);
    lemma_lists_any(scoop, packages@);
}

proof fn lemma_lists_any(names: Seq<String>, packages: Seq<String>)
    ensures
        lists_any(names, packages) <==> exists|i: int, j: int|
            0 <= i < packages.len() && 0 <= j < names.len() && (#[trigger] packages[i])@ == (
            #[trigger] names[j])@,
{
    if lists_any(names, packages) {
        let i = choose|i: int| 0 <= i < packages.len() && lists(names, (#[trigger] packages[i])@);
        let j = choose|j: int| 0 <= j < names.len() && (#[trigger] names[j])@ == packages[i]@;
        assert(packages[i]@ == names[j]@);
    }
    if exists|i: int, j: int|
        0 <= i < packages.len() && 0 <= j < names.len() && (#[trigger] packages[i])@ == (
        #[trigger] names[j])@ {
        let (i, j) = choose|i: int, j: int|
            0 <= i < packages.len() && 0 <= j < names.len() && (#[trigger] packages[i])@ == (
            #[trigger] names[j])@;
        assert(lists(names, packages[i]@));
    }
}

/// A caller whose packages are not known is served if it is filtered, no rule before stops it, and
/// unknown callers are admitted.
pub proof fn law_admitted_unknown_callers_are_served(
    scoop: Seq<String>,
    config: FilterConfig,
    uid: u32,
)
    requires
        config.enabled,
        config.allow_unknown_package,
        !(config.block_android_package && uid % 100000 < 10000),
    ensures
        filter_reason(scoop, config, uid, PackageResolution::Unknown) == FilterReason::Allowed,
{
}

/// The order of a caller's packages, and repetitions among them, make no difference.
pub proof fn law_packages_count_as_a_set(
    scoop: Seq<String>,
    config: FilterConfig,
    uid: u32,
    a: Vec<String>,
    b: Vec<String>,
)
    requires
        a@.map_values(|name: String| name@).to_set() == b@.map_values(
            |name: String| name@,
        ).to_set(),
    ensures
        filter_reason(scoop, config, uid, PackageResolution::Known(a)) == filter_reason(
            scoop,
            config,
            uid,
            PackageResolution::Known(b),
        ),
{
    lemma_same_names(config.deny_packages@, a@, b@);
    lemma_same_names(config.deny_packages@, b@, a@);
    lemma_same_names(scoop, a@, b@);
    lemma_same_names(scoop, b@, a@);
}

proof fn lemma_same_names(names: Seq<String>, a: Seq<String>, b: Seq<String>)
    requires
        a.map_values(|name: String| name@).to_set() == b.map_values(|name: String| name@).to_set(),
    ensures
        lists_any(names, a) ==> lists_any(names, b),
        has_android_package(a) ==> has_android_package(b),
{
    let x = a.map_values(|name: String| name@);
    let y = b.map_values(|name: String| name@);
    assert forall|i: int| 0 <= i < a.len() implies y.contains((#[trigger] a[i])@) by {
        assert(x[i] == a[i]@);
        assert(x.to_set().contains(a[i]@));
        assert(y.to_set().contains(a[i]@));
    }
    if lists_any(names, a) {
        let i = choose|i: int| 0 <= i < a.len() && lists(names, (#[trigger] a[i])@);
        let j = choose|j: int| 0 <= j < y.len() && a[i]@ == y[j];
        assert(lists(names, b[j]@));
    }
    if has_android_package(a) {
        let i = choose|i: int| 0 <= i < a.len() && is_android_name((#[trigger] a[i])@);
        let j = choose|j: int| 0 <= j < y.len() && a[i]@ == y[j];
        assert(is_android_name(b[j]@));
    }
}

/// The same application is treated alike for every user of the device.
pub proof fn law_users_are_treated_alike(
    scoop: Seq<String>,
    config: FilterConfig,
    a: u32,
    b: u32,
    resolution: PackageResolution,
)
    requires
        a % 100000 == b % 100000,
        a != 2000,
        b != 2000,
    ensures
        filter_reason(scoop, config, a, resolution) == filter_reason(scoop, config, b, resolution),
{
}

/// While Android's own callers are blocked, every system UID is turned away, whatever packages
/// stand behind it. The one exception is the `shell` UID, when it is admitted; `root` is none.
pub proof fn law_system_uids_are_turned_away(
    scoop: Seq<String>,
    config: FilterConfig,
    uid: u32,
    resolution: PackageResolution,
)
    requires
        config.enabled,
        config.block_android_package,
        is_system_uid(uid),
    ensures
        !is_admitted_shell(config, uid) ==> filter_reason(scoop, config, uid, resolution)
            == FilterReason::RejectedAndroidPackage,
        !is_admitted_shell(config, 0),
        filter_reason(scoop, config, 0, resolution) == FilterReason::RejectedAndroidPackage,
{
}

/// Admitting the `shell` UID changes nothing for any other UID.
pub proof fn law_shell_rule_is_for_shell_alone(
    scoop: Seq<String>,
    a: FilterConfig,
    b: FilterConfig,
    uid: u32,
    resolution: PackageResolution,
)
    requires
        uid != AID_SHELL,
        a == (FilterConfig { allow_shell_caller: a.allow_shell_caller, ..b }),
    ensures
        filter_reason(scoop, a, uid, resolution) == filter_reason(scoop, b, uid, resolution),
{
}

/// A caller whose packages are known is served, while callers are filtered, only if one of its
/// packages is in scope, none is denied, and none is Android's own while those are blocked. The
/// admitted `shell` UID is the one exception. Where these hold, it is served unless its UID is
/// blocked.
pub proof fn law_served_packages_are_in_scope(
    scoop: Seq<String>,
    config: FilterConfig,
    uid: u32,
    packages: Vec<String>,
)
    requires
        config.enabled,
        !is_admitted_shell(config, uid),
    ensures
        admits(filter_reason(scoop, config, uid, PackageResolution::Known(packages))) <==> {
            &&& lists_any(scoop, packages@)
            &&& !lists_any(config.deny_packages@, packages@)
            &&& !(config.block_android_package && has_android_package(packages@))
            &&& !(config.block_android_package && is_system_uid(uid))
        },
{
}

/// A caller whose packages are not known is served, while callers are filtered, only if such
/// callers are admitted or it is the admitted `shell` UID.
pub proof fn law_unknown_callers_need_permission(
    scoop: Seq<String>,
    config: FilterConfig,
    uid: u32,
)
    requires
        config.enabled,
        admits(filter_reason(scoop, config, uid, PackageResolution::Unknown)),
    ensures
        config.allow_unknown_package || is_admitted_shell(config, uid),
{
}

/// `wider` lists every name that `names` lists.
pub open spec fn covers(wider: Seq<String>, names: Seq<String>) -> bool {
    forall|name: Seq<char>| #[trigger] lists(names, name) ==> lists(wider, name)
}

/// Widening the scope turns no caller away.
pub proof fn law_wider_scope_serves_more(
    scoop: Seq<String>,
    wider: Seq<String>,
    config: FilterConfig,
    uid: u32,
    resolution: PackageResolution,
)
    requires
        covers(wider, scoop),
        admits(filter_reason(scoop, config, uid, resolution)),
    ensures
        admits(filter_reason(wider, config, uid, resolution)),
{
    lemma_covers_any(wider, scoop, known_packages(resolution));
}

/// Denying more packages serves no further caller.
pub proof fn law_longer_denylist_serves_less(
    scoop: Seq<String>,
    a: FilterConfig,
    b: FilterConfig,
    uid: u32,
    resolution: PackageResolution,
)
    requires
        a == (FilterConfig { deny_packages: a.deny_packages, ..b }),
        covers(b.deny_packages@, a.deny_packages@),
        admits(filter_reason(scoop, b, uid, resolution)),
    ensures
        admits(filter_reason(scoop, a, uid, resolution)),
{
    lemma_covers_any(b.deny_packages@, a.deny_packages@, known_packages(resolution));
}

proof fn lemma_covers_any(wider: Seq<String>, names: Seq<String>, packages: Seq<String>)
    requires
        covers(wider, names),
    ensures
        lists_any(names, packages) ==> lists_any(wider, packages),
{
    if lists_any(names, packages) {
        let i = choose|i: int| 0 <= i < packages.len() && lists(names, (#[trigger] packages[i])@);
        assert(lists(wider, packages[i]@));
    }
}

} // verus!
