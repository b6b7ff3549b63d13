use std::cell::Cell;

use omk::att_mgr::{
    attestation_snapshot, available_ids, needs_resolution, settled_snapshot, snapshot_from,
    AttestationIdMgr,
};
use omk::config::DeviceProperty;
use omk::error::{Error, ErrorCode};

fn configured_device() -> DeviceProperty {
    DeviceProperty {
        brand: "Redmi".to_string(),
        device: "zorn".to_string(),
        product: "zorn_global".to_string(),
        manufacturer: "Xiaomi".to_string(),
        model: "24069PC21G".to_string(),
        serial: "f7bade12".to_string(),
        override_telephony_properties: false,
        meid: String::new(),
        imei: String::new(),
        imei2: String::new(),
    }
}

fn device_with_ids(imei: &str, imei2: &str, meid: &str) -> DeviceProperty {
    DeviceProperty {
        imei: imei.to_string(),
        imei2: imei2.to_string(),
        meid: meid.to_string(),
        ..configured_device()
    }
}

fn no_config() -> Result<DeviceProperty, Error> {
    panic!("settled identifiers must not read the configuration")
}

fn no_telephony() -> anyhow::Result<Option<DeviceProperty>> {
    panic!("telephony must not be asked")
}

#[test]
fn deferred_telephony_still_attests_device_properties() {
    let (ids, provisional) = attestation_snapshot(configured_device(), || Ok(None));

    assert!(
        provisional,
        "snapshot without telephony IDs must not be cached"
    );
    assert_eq!(ids.brand, b"Redmi".to_vec());
    assert_eq!(ids.device, b"zorn".to_vec());
    assert_eq!(ids.product, b"zorn_global".to_vec());
    assert_eq!(ids.manufacturer, b"Xiaomi".to_vec());
    assert_eq!(ids.model, b"24069PC21G".to_vec());
    assert!(ids.imei.is_empty());
}

#[test]
fn failed_telephony_resolution_still_attests_device_properties() {
    let (ids, provisional) = attestation_snapshot(configured_device(), || {
        Err(anyhow::Error::msg("telephony service is not ready"))
    });

    assert!(provisional);
    assert_eq!(ids.model, b"24069PC21G".to_vec());
    assert!(ids.meid.is_empty());
}

#[test]
fn resolved_telephony_identifiers_are_cacheable() {
    let mut resolved = configured_device();
    resolved.imei = "490154203237518".to_string();

    let (ids, provisional) = attestation_snapshot(configured_device(), || Ok(Some(resolved)));

    assert!(!provisional);
    assert_eq!(ids.imei, b"490154203237518".to_vec());
}

#[test]
fn pinned_configuration_skips_resolution() {
    let mut device = configured_device();
    device.override_telephony_properties = true;
    device.imei = "490154203237518".to_string();
    let called = Cell::new(false);

    let (ids, provisional) = attestation_snapshot(device, || {
        called.set(true);
        Ok(None)
    });

    assert!(!called.get(), "pinned identifiers must not hit telephony");
    assert!(!provisional);
    assert_eq!(ids.imei, b"490154203237518".to_vec());
}

#[test]
fn complete_configuration_skips_resolution() {
    let (ids, provisional) = attestation_snapshot(device_with_ids("1", "2", "3"), no_telephony);
    assert!(!provisional);
    assert_eq!(ids.imei, b"1".to_vec());
    assert_eq!(ids.imei2, b"2".to_vec());
    assert_eq!(ids.meid, b"3".to_vec());
}

#[test]
fn any_blank_identifier_needs_resolution() {
    assert!(!needs_resolution(&device_with_ids("1", "2", "3")));
    assert!(needs_resolution(&device_with_ids("", "2", "3")));
    assert!(needs_resolution(&device_with_ids("1", "", "3")));
    assert!(needs_resolution(&device_with_ids("1", "2", "")));
    // White space counts as nothing, that of Unicode too.
    assert!(needs_resolution(&device_with_ids(" \t\r\n", "2", "3")));
    assert!(needs_resolution(&device_with_ids("1", "\u{a0}\u{2003}\u{3000}", "3")));
    assert!(needs_resolution(&device_with_ids("1", "2", "\u{85}\u{1680}\u{2028}")));
    assert!(needs_resolution(&device_with_ids("1", "2", "\u{2029}\u{202f}\u{205f}")));
    assert!(!needs_resolution(&device_with_ids(" 1 ", "\t2", "3\n")));
    // A zero-width space is no white space.
    assert!(!needs_resolution(&device_with_ids("\u{200b}", "2", "3")));
    let pinned = DeviceProperty {
        override_telephony_properties: true,
        ..configured_device()
    };
    assert!(!needs_resolution(&pinned));
}

#[test]
fn snapshot_holds_every_property_in_utf8() {
    let device = DeviceProperty {
        brand: "bränd".to_string(),
        meid: "m".to_string(),
        imei: " i ".to_string(),
        imei2: "j".to_string(),
        ..configured_device()
    };
    let ids = snapshot_from(device);
    assert_eq!(ids.brand, vec![b'b', b'r', 0xC3, 0xA4, b'n', b'd']);
    assert_eq!(ids.device, b"zorn".to_vec());
    assert_eq!(ids.product, b"zorn_global".to_vec());
    assert_eq!(ids.manufacturer, b"Xiaomi".to_vec());
    assert_eq!(ids.model, b"24069PC21G".to_vec());
    assert_eq!(ids.serial, b"f7bade12".to_vec());
    assert_eq!(ids.meid, b"m".to_vec());
    assert_eq!(ids.imei, b" i ".to_vec());
    assert_eq!(ids.imei2, b"j".to_vec());
}

#[test]
fn outcome_of_the_resolution_settles_the_snapshot() {
    let resolved = device_with_ids("1", "2", "3");
    let (ids, provisional) = settled_snapshot(configured_device(), Ok(Some(resolved)));
    assert!(!provisional);
    assert_eq!(ids.imei, b"1".to_vec());
    let (ids, provisional) = settled_snapshot(configured_device(), Ok(None));
    assert!(provisional);
    assert!(ids.imei.is_empty());
    let (ids, provisional) =
        settled_snapshot(configured_device(), Err(anyhow::Error::msg("not ready")));
    assert!(provisional);
    assert_eq!(ids.serial, b"f7bade12".to_vec());
}

#[test]
fn provisional_ids_are_asked_for_again_until_they_are_settled() {
    let mut mgr = AttestationIdMgr::new();
    assert!(!mgr.ids_are_provisional());
    let ids = mgr
        .get_ids(|| Ok(configured_device()), || Ok(None))
        .unwrap()
        .unwrap();
    assert!(ids.imei.is_empty());
    assert!(mgr.ids_are_provisional());
    let ids = mgr
        .get(
            || Ok(configured_device()),
            || Err(anyhow::Error::msg("not ready")),
        )
        .unwrap();
    assert_eq!(ids.brand, b"Redmi".to_vec());
    assert!(mgr.ids_are_provisional());

    let resolved = device_with_ids("1", "2", "3");
    let ids = mgr
        .get(|| Ok(configured_device()), || Ok(Some(resolved)))
        .unwrap();
    assert_eq!(ids.imei, b"1".to_vec());
    assert!(!mgr.ids_are_provisional());

    // From now on neither the configuration nor telephony is asked.
    let ids = mgr.get_ids(no_config, no_telephony).unwrap().unwrap();
    assert_eq!(ids.imei2, b"2".to_vec());
    assert!(!mgr.ids_are_provisional());
}

#[test]
fn unreadable_configuration_is_reported() {
    let mut mgr = AttestationIdMgr::new();
    let poisoned = || -> Result<DeviceProperty, Error> {
        Err(Error::Hal(
            ErrorCode::UnknownError,
            "config lock poisoned".to_string(),
        ))
    };
    let r = mgr.get(poisoned, no_telephony);
    assert!(matches!(
        r,
        Err(Error::Hal(ErrorCode::UnknownError, m)) if m == "config lock poisoned"
    ));
    assert!(!mgr.ids_are_provisional());
    // Nothing was remembered.
    let ids = mgr
        .get(|| Ok(device_with_ids("1", "2", "3")), no_telephony)
        .unwrap();
    assert_eq!(ids.meid, b"3".to_vec());
}

#[test]
fn absent_ids_cannot_be_attested() {
    assert!(matches!(
        available_ids(None),
        Err(Error::Hal(ErrorCode::CannotAttestIds, m)) if m == "attestation ID info not available"
    ));
    let ids = available_ids(Some(snapshot_from(configured_device()))).unwrap();
    assert_eq!(ids.device, b"zorn".to_vec());
}

#[test]
fn destroying_the_ids_has_no_effect() {
    let mut mgr = AttestationIdMgr::new();
    mgr.get(|| Ok(device_with_ids("1", "2", "3")), no_telephony)
        .unwrap();
    assert!(mgr.destroy_all().is_ok());
    let ids = mgr.get(no_config, no_telephony).unwrap();
    assert_eq!(ids.imei, b"1".to_vec());
}

#[test]
fn device_properties_come_from_the_configuration() {
    let other = DeviceProperty {
        brand: "Other".to_string(),
        device: "other".to_string(),
        product: "other_global".to_string(),
        manufacturer: "Someone".to_string(),
        model: "X".to_string(),
        serial: "0".to_string(),
        override_telephony_properties: true,
        ..device_with_ids("1", "2", "3")
    };
    let (ids, provisional) = attestation_snapshot(device_with_ids("9", "", ""), || Ok(Some(other)));
    assert!(!provisional);
    assert_eq!(ids.brand, b"Redmi".to_vec());
    assert_eq!(ids.device, b"zorn".to_vec());
    assert_eq!(ids.product, b"zorn_global".to_vec());
    assert_eq!(ids.manufacturer, b"Xiaomi".to_vec());
    assert_eq!(ids.model, b"24069PC21G".to_vec());
    assert_eq!(ids.serial, b"f7bade12".to_vec());
    // Only the telephony identifiers are those of the resolved device.
    assert_eq!(ids.imei, b"1".to_vec());
    assert_eq!(ids.imei2, b"2".to_vec());
    assert_eq!(ids.meid, b"3".to_vec());
}
