//! Configuration that the filter and the attestation identifiers are driven by.

use vstd::prelude::*;

verus! {

/// Which callers are served.
#[derive(Clone, Debug)]
pub struct FilterConfig {
    /// Whether callers are filtered at all.
    pub enabled: bool,
    /// Whether the `shell` UID is admitted regardless of package identity.
    pub allow_shell_caller: bool,
    /// Whether Android's own UIDs and packages are turned away.
    pub block_android_package: bool,
    /// Whether a caller whose packages cannot be resolved is admitted.
    pub allow_unknown_package: bool,
    /// Packages that are turned away even when they are in scope.
    pub deny_packages: Vec<String>,
}

/// The device identity that is attested.
#[derive(Clone, Debug)]
pub struct DeviceProperty {
    /// Brand.
    pub brand: String,
    /// Device.
    pub device: String,
    /// Product.
    pub product: String,
    /// Manufacturer.
    pub manufacturer: String,
    /// Model.
    pub model: String,
    /// Serial number.
    pub serial: String,
    /// Whether the telephony identifiers below are final, even where they are empty.
    pub override_telephony_properties: bool,
    /// MEID.
    pub meid: String,
    /// IMEI of the first slot.
    pub imei: String,
    /// IMEI of the second slot.
    pub imei2: String,
}

} // verus!
