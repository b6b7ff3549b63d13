use std::cell::Cell;

use ciborium::value::Value;
use coset::AsCborValue;
use omk::cbor::serialize_cbor;
use omk::cose::{CoseAlgorithm, CoseKey, KeyParam, KeyType};
use omk::error::{CborError, Error, RpcErrorCode};
use omk::keymint::chain::{
    KEY_USAGE_CERT_SIGN, LABEL_AUTHORITY_HASH, LABEL_CODE_HASH, LABEL_COMPONENT_NAME,
    LABEL_COMPONENT_VERSION, LABEL_CONFIG_DESC, LABEL_CONFIG_HASH, LABEL_ISSUER, LABEL_KEY_USAGE,
    LABEL_MODE, LABEL_PROFILE_NAME, LABEL_SECURITY_VERSION, LABEL_SUBJECT,
    LABEL_SUBJECT_PUBLIC_KEY, MODE_DEBUG, MODE_NORMAL,
};
use omk::keymint::dice::{dice_id, sha512};
use omk::keymint::rpc::{
    ec_key, Artifacts, CsrSigningAlgorithm, DeriveBytes, DiceBootInfo, DiceStage, Digest, EcCurve,
    KeyMaterial, KeyRequest, NistCurve, SignRequest, StageKey, TestMode,
};
use ring::signature::{Ed25519KeyPair, KeyPair, UnparsedPublicKey, ED25519};

/// Deterministic stand-in for derivation from a hardware-backed key.
struct FakeDerive;

impl DeriveBytes for FakeDerive {
    fn derive_bytes(&self, context: &[u8], output_len: usize) -> Result<Vec<u8>, Error> {
        let mut out = Vec::new();
        let mut block = sha512(context);
        while out.len() < output_len {
            out.extend_from_slice(&block);
            block = sha512(&block);
        }
        out.truncate(output_len);
        Ok(out)
    }
}

/// Derivation that fails for one context.
struct FailsFor(&'static [u8]);

impl DeriveBytes for FailsFor {
    fn derive_bytes(&self, context: &[u8], output_len: usize) -> Result<Vec<u8>, Error> {
        if context == self.0 {
            Err(Error::Device)
        } else {
            FakeDerive.derive_bytes(context, output_len)
        }
    }
}

/// Derivation that fails the first time that it is asked for one context.
struct FailsOnce(&'static [u8], Cell<bool>);

impl DeriveBytes for FailsOnce {
    fn derive_bytes(&self, context: &[u8], output_len: usize) -> Result<Vec<u8>, Error> {
        if context == self.0 && !self.1.replace(true) {
            Err(Error::Device)
        } else {
            FakeDerive.derive_bytes(context, output_len)
        }
    }
}

fn okp_key(public_key: &[u8]) -> CoseKey {
    CoseKey {
        kty: KeyType::Okp,
        alg: Some(CoseAlgorithm::EdDSA),
        params: vec![
            (-1, KeyParam::Int(6)),
            (-2, KeyParam::Bytes(public_key.to_vec())),
        ],
    }
}

fn generate(request: KeyRequest) -> Result<KeyMaterial<Ed25519KeyPair>, Error> {
    let KeyRequest::ImportEd25519(secret) = request else {
        panic!("expected an Ed25519 key");
    };
    let private_key = Ed25519KeyPair::from_seed_unchecked(&secret).map_err(|_| Error::Device)?;
    let public_key = private_key.public_key().as_ref().to_vec();
    Ok(KeyMaterial::Ec(StageKey {
        cose_key: okp_key(&public_key),
        private_key,
        public_key,
    }))
}

fn sign(key: &Ed25519KeyPair, request: SignRequest) -> Result<Vec<u8>, Error> {
    assert_eq!(request.digest, Digest::NoDigest);
    assert_eq!(request.curve, EcCurve::Curve25519);
    Ok(key.sign(&request.data).as_ref().to_vec())
}

fn boot() -> DiceBootInfo {
    DiceBootInfo {
        vb_key: [0x11; 32],
        vb_hash: [0x22; 32],
        boot_patchlevel: 20250605,
        os_patchlevel: 202506,
        os_version: 16,
        locked: true,
    }
}

fn artifacts() -> Artifacts<FakeDerive, Ed25519KeyPair> {
    Artifacts::new(FakeDerive, CsrSigningAlgorithm::EdDSA, boot())
}

fn read_to_value(data: &[u8]) -> Result<Value, ciborium::de::Error<std::io::Error>> {
    ciborium::de::from_reader(data)
}

fn field(payload: &[(Value, Value)], label: i64) -> Value {
    payload
        .iter()
        .find(|(key, _value)| key == &Value::Integer(label.into()))
        .unwrap_or_else(|| panic!("missing field {label} in DiceChainEntryPayload"))
        .1
        .clone()
}

fn payload_of(entry: &Value) -> Vec<(Value, Value)> {
    let Value::Array(entry) = entry else {
        panic!("DiceChainEntry is not a COSE_Sign1 array");
    };
    let Value::Bytes(payload) = &entry[2] else {
        panic!("DiceChainEntry has no payload");
    };
    match read_to_value(payload).expect("failed to parse DiceChainEntryPayload") {
        Value::Map(payload) => payload,
        _ => panic!("DiceChainEntryPayload is not a map"),
    }
}

fn chain_of(data: &[u8]) -> Vec<Value> {
    let Value::Array(chain) = read_to_value(data).expect("failed to parse DiceCertChain") else {
        panic!("DiceCertChain is not an array");
    };
    chain
}

fn hex_bytes(hex: &str) -> Vec<u8> {
    hex::decode(hex).expect("not hex")
}

fn padded(hex: &str) -> Vec<u8> {
    let mut bytes = hex_bytes(hex);
    bytes.resize(64, 0);
    bytes
}

fn is_not_initialized(r: Result<Vec<u8>, Error>) -> bool {
    matches!(
        r,
        Err(Error::Rpc(RpcErrorCode::Failed, m)) if m == "DICE artifacts are not initialized."
    )
}

#[test]
fn dice_chain_has_an_entry_per_boot_stage() {
    let dice_info = artifacts()
        .get_dice_info(TestMode(false), &generate, &sign)
        .expect("failed to generate DICE info");
    let chain = read_to_value(&dice_info.pub_dice_artifacts.dice_cert_chain)
        .expect("failed to parse DiceCertChain");
    let Value::Array(chain) = chain else {
        panic!("DiceCertChain is not an array");
    };
    // `UDS_Pub`, followed by one entry per boot stage.
    assert_eq!(chain.len(), 4);

    let mut issuer: Option<Value> = None;
    for entry in chain.iter().skip(1) {
        let payload = payload_of(entry);
        if let Some(issuer) = issuer {
            assert_eq!(field(&payload, LABEL_ISSUER), issuer);
        }
        assert_eq!(
            field(&payload, LABEL_PROFILE_NAME),
            Value::Text(String::from("android.16"))
        );
        assert_eq!(
            field(&payload, LABEL_KEY_USAGE),
            Value::Bytes(vec![KEY_USAGE_CERT_SIGN])
        );
        assert_eq!(field(&payload, LABEL_MODE), Value::Bytes(vec![MODE_NORMAL]));

        let Value::Bytes(code_hash) = field(&payload, LABEL_CODE_HASH) else {
            panic!("code hash is not a byte string");
        };
        let Value::Bytes(authority_hash) = field(&payload, LABEL_AUTHORITY_HASH) else {
            panic!("authority hash is not a byte string");
        };
        let Value::Bytes(config_desc) = field(&payload, LABEL_CONFIG_DESC) else {
            panic!("configuration descriptor is not a byte string");
        };
        assert_eq!(code_hash.len(), 64);
        assert_eq!(authority_hash.len(), 64);
        assert_eq!(
            field(&payload, LABEL_CONFIG_HASH),
            Value::Bytes(sha512(&config_desc))
        );

        issuer = Some(field(&payload, LABEL_SUBJECT));
    }

    // The chain is not degenerate: the leaf key is not the root key.
    let leaf_key = field(&payload_of(&chain[3]), LABEL_SUBJECT_PUBLIC_KEY);
    let uds_key = Value::Bytes(serialize_cbor(&chain[0]).expect("failed to serialize UDS_Pub"));
    assert_ne!(leaf_key, uds_key);
}

#[test]
fn dice_chain_reports_debug_mode_when_unlocked() {
    let mut artifacts: Artifacts<FakeDerive, Ed25519KeyPair> = Artifacts::new(
        FakeDerive,
        CsrSigningAlgorithm::EdDSA,
        DiceBootInfo {
            locked: false,
            ..Default::default()
        },
    );
    let dice_info = artifacts
        .get_dice_info(TestMode(false), &generate, &sign)
        .expect("failed to generate DICE info");
    let chain = read_to_value(&dice_info.pub_dice_artifacts.dice_cert_chain)
        .expect("failed to parse DiceCertChain");
    let Value::Array(chain) = chain else {
        panic!("DiceCertChain is not an array");
    };
    for entry in chain.iter().skip(1) {
        assert_eq!(
            field(&payload_of(entry), LABEL_MODE),
            Value::Bytes(vec![MODE_DEBUG])
        );
    }
}

#[test]
fn each_entry_is_signed_by_the_key_before_it() {
    let info = artifacts()
        .get_dice_info(TestMode(false), &generate, &sign)
        .unwrap();
    let chain = chain_of(&info.pub_dice_artifacts.dice_cert_chain);
    let mut issuer_key = coset::CoseKey::from_cbor_value(chain[0].clone()).unwrap();
    for entry in chain.iter().skip(1) {
        let message = coset::CoseSign1::from_cbor_value(entry.clone()).unwrap();
        assert_eq!(
            message.protected.header.alg,
            Some(coset::Algorithm::Assigned(coset::iana::Algorithm::EdDSA))
        );
        let Value::Bytes(public_key) = issuer_key.params[1].1.clone() else {
            panic!("key has no x coordinate");
        };
        message
            .verify_signature(&[], |signature, data| {
                UnparsedPublicKey::new(&ED25519, &public_key).verify(data, signature)
            })
            .expect("signature does not verify");
        let Value::Bytes(subject_key) = field(&payload_of(entry), LABEL_SUBJECT_PUBLIC_KEY) else {
            panic!("subject key is not a byte string");
        };
        issuer_key = coset::CoseKey::from_cbor_value(read_to_value(&subject_key).unwrap()).unwrap();
    }
}

#[test]
fn entries_name_the_ids_of_their_keys() {
    let info = artifacts()
        .get_dice_info(TestMode(false), &generate, &sign)
        .unwrap();
    let chain = chain_of(&info.pub_dice_artifacts.dice_cert_chain);
    let id_of = |key: &Value| {
        let key = coset::CoseKey::from_cbor_value(key.clone()).unwrap();
        let Value::Bytes(public_key) = key.params[1].1.clone() else {
            panic!("key has no x coordinate");
        };
        Value::Text(dice_id(&public_key).unwrap())
    };
    assert_eq!(field(&payload_of(&chain[1]), LABEL_ISSUER), id_of(&chain[0]));
    for entry in chain.iter().skip(1) {
        let payload = payload_of(entry);
        let Value::Bytes(key) = field(&payload, LABEL_SUBJECT_PUBLIC_KEY) else {
            panic!("subject key is not a byte string");
        };
        assert_eq!(
            field(&payload, LABEL_SUBJECT),
            id_of(&read_to_value(&key).unwrap())
        );
    }
}

#[test]
fn keys_are_derived_with_a_context_of_their_own() {
    let contexts: [&[u8]; 4] = [
        b"UDS Key Seed",
        b"CDI Key Seed: ABL",
        b"CDI Key Seed: AVB",
        b"Device Key Seed",
    ];
    let info = artifacts()
        .get_dice_info(TestMode(false), &generate, &sign)
        .unwrap();
    let chain = chain_of(&info.pub_dice_artifacts.dice_cert_chain);
    for (i, context) in contexts.iter().enumerate() {
        let secret = FakeDerive.derive_bytes(context, 32).unwrap();
        let key = Ed25519KeyPair::from_seed_unchecked(&secret).unwrap();
        let cose_key = okp_key(key.public_key().as_ref()).to_cbor_value().unwrap();
        if i == 0 {
            assert_eq!(chain[0], cose_key);
        } else {
            assert_eq!(
                field(&payload_of(&chain[i]), LABEL_SUBJECT_PUBLIC_KEY),
                Value::Bytes(serialize_cbor(&cose_key).unwrap())
            );
        }
    }
}

#[test]
fn stages_carry_their_versions_and_measurements() {
    let stages = artifacts().boot_stages();
    assert_eq!(stages.len(), 3);
    let expected: [(&str, u64, u64, Vec<u8>); 3] = [
        (
            "ABL",
            20250605,
            20250605,
            padded("25848b239bf5055db37ec8b402f9854f732b2139dacfd5598994be8b2234ed9e"),
        ),
        ("AVB", 16, 202506, padded(&"22".repeat(32))),
        (
            "KeyMint",
            16,
            202506,
            padded("bf7a7e68dd5ba4f557d6debfe83bacde4a8aa955586cab9632a0a76368c166e2"),
        ),
    ];
    for (stage, (name, version, security_version, code_hash)) in stages.iter().zip(expected) {
        assert_eq!(stage.name, name);
        assert_eq!(stage.version, version);
        assert_eq!(stage.security_version, security_version);
        assert_eq!(stage.code_hash, code_hash);
    }
}

#[test]
fn config_descriptors_describe_the_stages() {
    let info = artifacts()
        .get_dice_info(TestMode(false), &generate, &sign)
        .unwrap();
    let chain = chain_of(&info.pub_dice_artifacts.dice_cert_chain);
    for (entry, stage) in chain.iter().skip(1).zip(artifacts().boot_stages()) {
        let payload = payload_of(entry);
        let Value::Bytes(descriptor) = field(&payload, LABEL_CONFIG_DESC) else {
            panic!("configuration descriptor is not a byte string");
        };
        let Value::Map(descriptor) = read_to_value(&descriptor).unwrap() else {
            panic!("configuration descriptor is not a map");
        };
        assert_eq!(descriptor.len(), 3);
        assert_eq!(
            field(&descriptor, LABEL_COMPONENT_NAME),
            Value::Text(stage.name.to_string())
        );
        assert_eq!(
            field(&descriptor, LABEL_COMPONENT_VERSION),
            Value::Integer(stage.version.into())
        );
        assert_eq!(
            field(&descriptor, LABEL_SECURITY_VERSION),
            Value::Integer(stage.security_version.into())
        );
        assert_eq!(
            field(&payload, LABEL_CODE_HASH),
            Value::Bytes(stage.code_hash.clone())
        );
        assert_eq!(
            field(&payload, LABEL_AUTHORITY_HASH),
            Value::Bytes(padded(
                "869d15b2fa01f96431057f767607660c3ed6043eb09a25859a322560307e308f"
            ))
        );
    }
}

#[test]
fn payload_has_its_exact_encoding() {
    let artifacts = artifacts();
    let stage = DiceStage {
        name: "AVB",
        version: 16,
        security_version: 202506,
        code_hash: padded(&"22".repeat(32)),
    };
    let payload = artifacts
        .entry_payload("aa", "bb", &stage, &okp_key(&[5; 32]))
        .unwrap();
    assert_eq!(
        hex::encode(payload),
        "aa01626161026262623a00474450584022222222222222222222222222222222222222222222222222222222222\
         2222200000000000000000000000000000000000000000000000000000000000000003a00474453581aa33a000\
         11171634156423a00011172103a000111741a0003170a3a004744525840c548df9feb4249c60295c2baebd652\
         74ba658fdcd48a63f5ff18f347128ca02776e2ee0879eb72cbd4e268957cdb2ed64094648f85b16f6fbad33ff\
         053e488bf3a004744545840869d15b2fa01f96431057f767607660c3ed6043eb09a25859a322560307e308f00\
         000000000000000000000000000000000000000000000000000000000000003a0047445641013a00474457582\
         aa401010327200621582005050505050505050505050505050505050505050505050505050505050505053a00\
         47445841203a004744596a616e64726f69642e3136"
    );
}

#[test]
fn profile_name_follows_the_android_version() {
    let versions: [(u32, Option<&str>); 8] = [
        (0, None),
        (13, None),
        (14, Some("android.14")),
        (15, Some("android.15")),
        (16, Some("android.16")),
        (17, Some("android.16")),
        (1000, Some("android.16")),
        (u32::MAX, Some("android.16")),
    ];
    for (os_version, name) in versions {
        let boot = DiceBootInfo {
            os_version,
            ..boot()
        };
        let mut artifacts: Artifacts<FakeDerive, Ed25519KeyPair> =
            Artifacts::new(FakeDerive, CsrSigningAlgorithm::EdDSA, boot);
        assert_eq!(artifacts.profile_name(), name);
        let info = artifacts
            .get_dice_info(TestMode(false), &generate, &sign)
            .unwrap();
        let chain = chain_of(&info.pub_dice_artifacts.dice_cert_chain);
        for entry in chain.iter().skip(1) {
            let label = Value::Integer(LABEL_PROFILE_NAME.into());
            let given = payload_of(entry).into_iter().find(|(key, _)| *key == label);
            assert_eq!(
                given.map(|(_, value)| value),
                name.map(|name| Value::Text(name.to_string()))
            );
        }
    }
}

#[test]
fn labels_occur_once_in_a_payload() {
    let info = artifacts()
        .get_dice_info(TestMode(false), &generate, &sign)
        .unwrap();
    for entry in chain_of(&info.pub_dice_artifacts.dice_cert_chain).iter().skip(1) {
        let payload = payload_of(entry);
        for (i, (label, _)) in payload.iter().enumerate() {
            assert!(payload[i + 1..].iter().all(|(other, _)| other != label));
        }
    }
}

#[test]
fn authority_depends_on_the_verified_boot_key_alone() {
    let authority = |boot: DiceBootInfo| {
        let mut artifacts: Artifacts<FakeDerive, Ed25519KeyPair> =
            Artifacts::new(FakeDerive, CsrSigningAlgorithm::EdDSA, boot);
        let info = artifacts
            .get_dice_info(TestMode(false), &generate, &sign)
            .unwrap();
        let chain = chain_of(&info.pub_dice_artifacts.dice_cert_chain);
        let hashes: Vec<Value> = chain
            .iter()
            .skip(1)
            .map(|entry| field(&payload_of(entry), LABEL_AUTHORITY_HASH))
            .collect();
        assert!(hashes.iter().all(|hash| *hash == hashes[0]));
        hashes[0].clone()
    };
    let expected = authority(boot());
    let same_key = DiceBootInfo {
        vb_key: [0x11; 32],
        ..Default::default()
    };
    assert_eq!(authority(same_key), expected);
    let other_key = DiceBootInfo {
        vb_key: [0x12; 32],
        ..boot()
    };
    assert_ne!(authority(other_key), expected);
}

#[test]
fn uds_certs_are_an_empty_map() {
    let info = artifacts()
        .get_dice_info(TestMode(false), &generate, &sign)
        .unwrap();
    assert_eq!(info.pub_dice_artifacts.uds_certs, vec![0xA0]);
    assert_eq!(info.signing_algorithm, CsrSigningAlgorithm::EdDSA);
}

#[test]
fn dice_info_is_generated_once() {
    let mut artifacts = artifacts();
    let first = artifacts
        .get_dice_info(TestMode(false), &generate, &sign)
        .unwrap();
    let no_key = |_: KeyRequest| -> Result<KeyMaterial<Ed25519KeyPair>, Error> {
        panic!("keys are not generated again")
    };
    let no_signature = |_: &Ed25519KeyPair, _: SignRequest| -> Result<Vec<u8>, Error> {
        panic!("entries are not signed again")
    };
    let second = artifacts
        .get_dice_info(TestMode(true), &no_key, &no_signature)
        .unwrap();
    assert_eq!(
        first.pub_dice_artifacts.dice_cert_chain,
        second.pub_dice_artifacts.dice_cert_chain
    );
    assert_eq!(second.pub_dice_artifacts.uds_certs, vec![0xA0]);
    assert_eq!(second.signing_algorithm, CsrSigningAlgorithm::EdDSA);
}

#[test]
fn test_mode_makes_no_difference() {
    let normal = artifacts()
        .get_dice_info(TestMode(false), &generate, &sign)
        .unwrap();
    let test = artifacts()
        .get_dice_info(TestMode(true), &generate, &sign)
        .unwrap();
    assert_eq!(
        normal.pub_dice_artifacts.dice_cert_chain,
        test.pub_dice_artifacts.dice_cert_chain
    );
}

#[test]
fn data_is_signed_by_the_leaf_key_once_there_is_one() {
    let mut artifacts = artifacts();
    assert!(is_not_initialized(artifacts.sign_data(&sign, b"request")));
    artifacts
        .get_dice_info(TestMode(false), &generate, &sign)
        .unwrap();
    let signature = artifacts.sign_data(&sign, b"request").unwrap();
    let secret = FakeDerive.derive_bytes(b"Device Key Seed", 32).unwrap();
    let leaf = Ed25519KeyPair::from_seed_unchecked(&secret).unwrap();
    UnparsedPublicKey::new(&ED25519, leaf.public_key().as_ref())
        .verify(b"request", &signature)
        .expect("signature does not verify");
}

#[test]
fn secrets_are_derived_from_the_hardware_backed_key() {
    let secret = artifacts().derive_bytes_from_hbk(b"context", 100).unwrap();
    assert_eq!(secret, FakeDerive.derive_bytes(b"context", 100).unwrap());
    let failing: Artifacts<FailsFor, Ed25519KeyPair> =
        Artifacts::new(FailsFor(b"context"), CsrSigningAlgorithm::EdDSA, boot());
    assert!(matches!(
        failing.derive_bytes_from_hbk(b"context", 100),
        Err(Error::Device)
    ));
}

#[test]
fn failed_derivation_leaves_nothing_behind() {
    let contexts: [&'static [u8]; 4] = [
        b"UDS Key Seed",
        b"CDI Key Seed: ABL",
        b"CDI Key Seed: AVB",
        b"Device Key Seed",
    ];
    for context in contexts {
        let mut artifacts: Artifacts<FailsFor, Ed25519KeyPair> =
            Artifacts::new(FailsFor(context), CsrSigningAlgorithm::EdDSA, boot());
        assert!(matches!(
            artifacts.get_dice_info(TestMode(false), &generate, &sign),
            Err(Error::Device)
        ));
        assert!(is_not_initialized(artifacts.sign_data(&sign, b"request")));
    }
}

#[test]
fn failed_generation_is_passed_on() {
    for failing in 0..4 {
        let calls = Cell::new(0);
        let fails = |request: KeyRequest| {
            calls.set(calls.get() + 1);
            if calls.get() == failing + 1 {
                Err(Error::Device)
            } else {
                generate(request)
            }
        };
        let mut artifacts = artifacts();
        assert!(matches!(
            artifacts.get_dice_info(TestMode(false), &fails, &sign),
            Err(Error::Device)
        ));
        assert_eq!(calls.get(), failing + 1);
        assert!(is_not_initialized(artifacts.sign_data(&sign, b"request")));
    }
}

#[test]
fn failed_signature_is_passed_on() {
    for failing in 0..3 {
        let calls = Cell::new(0);
        let fails = |key: &Ed25519KeyPair, request: SignRequest| {
            calls.set(calls.get() + 1);
            if calls.get() == failing + 1 {
                Err(Error::Device)
            } else {
                sign(key, request)
            }
        };
        let mut artifacts = artifacts();
        assert!(matches!(
            artifacts.get_dice_info(TestMode(false), &generate, &fails),
            Err(Error::Device)
        ));
        assert_eq!(calls.get(), failing + 1);
        // A later attempt starts afresh.
        assert!(artifacts
            .get_dice_info(TestMode(false), &generate, &sign)
            .is_ok());
    }
}

#[test]
fn only_elliptic_curve_keys_will_do() {
    let other = |_: KeyRequest| Ok(KeyMaterial::Other);
    let r = artifacts().get_dice_info(TestMode(false), &other, &sign);
    assert!(matches!(
        r,
        Err(Error::Rpc(RpcErrorCode::Failed, m))
            if m == "expected the Ec variant of KeyMaterial for the cdi leaf key."
    ));
    let none: Result<KeyMaterial<()>, Error> = Err(Error::Device);
    assert!(matches!(ec_key(none), Err(Error::Device)));
}

#[test]
fn malformed_keys_are_refused() {
    for failing in 0..4 {
        let calls = Cell::new(0);
        let malformed = |request: KeyRequest| {
            let mut material = generate(request)?;
            if let KeyMaterial::Ec(key) = &mut material {
                if calls.get() == failing {
                    key.cose_key.params.push((-1, KeyParam::Int(7)));
                }
            }
            calls.set(calls.get() + 1);
            Ok(material)
        };
        assert!(matches!(
            artifacts().get_dice_info(TestMode(false), &malformed, &sign),
            Err(Error::Cbor(CborError::DuplicateMapKey))
        ));
        assert_eq!(calls.get(), failing + 1);
    }
}

#[test]
fn nist_keys_are_generated_on_the_curve_of_the_algorithm() {
    let algorithms = [
        (
            CsrSigningAlgorithm::ES256,
            NistCurve::P256,
            EcCurve::P256,
            Digest::Sha256,
            CoseAlgorithm::ES256,
            -7,
        ),
        (
            CsrSigningAlgorithm::ES384,
            NistCurve::P384,
            EcCurve::P384,
            Digest::Sha384,
            CoseAlgorithm::ES384,
            -35,
        ),
    ];
    for (algo, nist_curve, curve, digest, cose_algo, number) in algorithms {
        let keys = Cell::new(0u8);
        let contexts: [&[u8]; 4] = [
            b"UDS Key Seed",
            b"CDI Key Seed: ABL",
            b"CDI Key Seed: AVB",
            b"Device Key Seed",
        ];
        let nist_key = |request: KeyRequest| {
            let KeyRequest::GenerateNist(c, context) = request else {
                panic!("expected a NIST key");
            };
            assert_eq!(c, nist_curve);
            // Every key is asked for, each for a context of its own.
            assert_eq!(context, contexts[keys.get() as usize]);
            keys.set(keys.get() + 1);
            let mut public_key = vec![0x04];
            public_key.extend_from_slice(&[keys.get(); 64]);
            Ok(KeyMaterial::Ec(StageKey {
                private_key: keys.get(),
                cose_key: CoseKey {
                    kty: KeyType::Ec2,
                    alg: Some(cose_algo),
                    params: vec![
                        (-1, KeyParam::Int(1)),
                        (-2, KeyParam::Bytes(vec![keys.get(); 32])),
                        (-3, KeyParam::Bytes(vec![keys.get(); 32])),
                    ],
                },
                public_key,
            }))
        };
        let nist_sign = |key: &u8, request: SignRequest| {
            assert_eq!(request.digest, digest);
            assert_eq!(request.curve, curve);
            Ok(vec![*key; 3])
        };
        // Nothing is derived for such keys.
        let mut artifacts: Artifacts<FailsFor, u8> =
            Artifacts::new(FailsFor(b"UDS Key Seed"), algo, boot());
        assert_eq!(artifacts.signing_curve(), curve);
        assert_eq!(artifacts.signing_digest(), digest);
        assert_eq!(artifacts.signing_cose_algo(), cose_algo);
        let info = artifacts
            .get_dice_info(TestMode(false), &nist_key, &nist_sign)
            .unwrap();
        assert_eq!(info.signing_algorithm, algo);
        let chain = chain_of(&info.pub_dice_artifacts.dice_cert_chain);
        assert_eq!(chain.len(), 4);
        assert_eq!(keys.get(), 4);
        for (i, entry) in chain.iter().enumerate().skip(1) {
            let Value::Array(parts) = entry else {
                panic!("DiceChainEntry is not a COSE_Sign1 array");
            };
            let header = Value::Map(vec![(Value::from(1), Value::from(number))]);
            assert_eq!(parts[0], Value::Bytes(serialize_cbor(&header).unwrap()));
            assert_eq!(parts[1], Value::Map(vec![]));
            assert_eq!(parts[3], Value::Bytes(vec![i as u8; 3]));
            // The tag of an uncompressed point is not part of what an ID is derived from.
            assert_eq!(
                field(&payload_of(entry), LABEL_SUBJECT),
                Value::Text(dice_id(&[i as u8 + 1; 64]).unwrap())
            );
        }
        assert_eq!(artifacts.sign_data(&nist_sign, b"request").unwrap(), vec![4; 3]);
    }
}

#[test]
fn raw_public_keys_have_no_tag() {
    let ed25519 = artifacts();
    let es256: Artifacts<FakeDerive, ()> =
        Artifacts::new(FakeDerive, CsrSigningAlgorithm::ES256, boot());
    assert_eq!(ed25519.raw_public_key(&[4, 1, 2]), vec![4, 1, 2]);
    assert_eq!(es256.raw_public_key(&[4, 1, 2]), vec![1, 2]);
    assert_eq!(es256.raw_public_key(&[4, 4]), vec![4]);
    assert_eq!(es256.raw_public_key(&[2, 1]), vec![2, 1]);
    assert_eq!(es256.raw_public_key(&[]), Vec::<u8>::new());
}

#[test]
fn mode_is_normal_only_when_locked() {
    assert_eq!(artifacts().mode(), 1);
    let unlocked: Artifacts<FakeDerive, ()> = Artifacts::new(
        FakeDerive,
        CsrSigningAlgorithm::EdDSA,
        DiceBootInfo::default(),
    );
    assert_eq!(unlocked.mode(), 2);
}

#[test]
fn chain_is_the_same_after_a_restart() {
    let first = artifacts()
        .get_dice_info(TestMode(false), &generate, &sign)
        .unwrap();
    let second = artifacts()
        .get_dice_info(TestMode(true), &generate, &sign)
        .unwrap();
    assert_eq!(
        first.pub_dice_artifacts.dice_cert_chain,
        second.pub_dice_artifacts.dice_cert_chain
    );
}

#[test]
fn leaf_key_does_not_depend_on_the_boot_state() {
    let mut locked = artifacts();
    let mut unlocked: Artifacts<FakeDerive, Ed25519KeyPair> = Artifacts::new(
        FakeDerive,
        CsrSigningAlgorithm::EdDSA,
        DiceBootInfo::default(),
    );
    let a = locked
        .get_dice_info(TestMode(false), &generate, &sign)
        .unwrap();
    let b = unlocked
        .get_dice_info(TestMode(false), &generate, &sign)
        .unwrap();
    assert_ne!(
        a.pub_dice_artifacts.dice_cert_chain,
        b.pub_dice_artifacts.dice_cert_chain
    );
    // Ed25519 signatures are deterministic.
    assert_eq!(
        locked.sign_data(&sign, b"request").unwrap(),
        unlocked.sign_data(&sign, b"request").unwrap()
    );
}

#[test]
fn failed_derivation_can_be_tried_again() {
    let mut artifacts: Artifacts<FailsOnce, Ed25519KeyPair> = Artifacts::new(
        FailsOnce(b"Device Key Seed", Cell::new(false)),
        CsrSigningAlgorithm::EdDSA,
        boot(),
    );
    assert!(matches!(
        artifacts.get_dice_info(TestMode(false), &generate, &sign),
        Err(Error::Device)
    ));
    assert!(is_not_initialized(artifacts.sign_data(&sign, b"request")));
    let info = artifacts
        .get_dice_info(TestMode(false), &generate, &sign)
        .unwrap();
    assert_eq!(chain_of(&info.pub_dice_artifacts.dice_cert_chain).len(), 4);
    assert!(artifacts.sign_data(&sign, b"request").is_ok());
}

#[test]
fn nothing_is_signed_before_there_is_a_key() {
    let no_signature = |_: &Ed25519KeyPair, _: SignRequest| -> Result<Vec<u8>, Error> {
        panic!("there is no key to sign with")
    };
    assert!(is_not_initialized(
        artifacts().sign_data(&no_signature, b"request")
    ));
}

#[test]
fn signing_key_is_that_of_the_last_entry_in_every_state() {
    let mut artifacts = artifacts();
    for _ in 0..2 {
        let info = artifacts
            .get_dice_info(TestMode(false), &generate, &sign)
            .unwrap();
        assert_eq!(info.signing_algorithm, CsrSigningAlgorithm::EdDSA);
        let chain = chain_of(&info.pub_dice_artifacts.dice_cert_chain);
        let Value::Bytes(leaf) = field(&payload_of(&chain[3]), LABEL_SUBJECT_PUBLIC_KEY) else {
            panic!("subject key is not a byte string");
        };
        let leaf = coset::CoseKey::from_cbor_value(read_to_value(&leaf).unwrap()).unwrap();
        let Value::Bytes(public_key) = leaf.params[1].1.clone() else {
            panic!("key has no x coordinate");
        };
        let signature = artifacts.sign_data(&sign, b"request").unwrap();
        UnparsedPublicKey::new(&ED25519, &public_key)
            .verify(b"request", &signature)
            .expect("signature does not verify");
    }
}
