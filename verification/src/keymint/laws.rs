//! What holds of the DICE artifacts as a whole, said of the boot state that goes in and of the bytes,
//! keys and errors that come out.

use vstd::prelude::*;
use vstd::utf8::encode_utf8;

use crate::cbor::{
    big_endian, encode, law_items_are_written_one_after_the_other, lemma_encode_one, map_items,
    DataItem,
};
use crate::cose::{
    law_keys_are_refused_for_a_repeated_label, law_messages_are_written_whole,
    law_protected_headers_name_the_algorithm, law_the_whole_payload_is_signed, protected_header,
    sign1_items, CoseKey, KeyParam,
};
use crate::digest::{hkdf_sha512_output, sha256_digest, sha512_digest};
use crate::error::{CborError, Error, RpcErrorCode};
use crate::keymint::chain::{
    cose_algorithm, curve_for, dice_cert_chain, dice_mode, digest_for, entry_fields,
    entry_payload, entry_signed_data, has_field, key_context, key_id,
    law_chain_has_an_entry_per_boot_stage, payload, payload_fields, profile, raw_key, stage_models,
    ChainHistory, StageModel, LABEL_COMPONENT_NAME, LABEL_COMPONENT_VERSION, LABEL_CONFIG_DESC,
    LABEL_SECURITY_VERSION,
};
use crate::keymint::dice::{
    byte_value, law_certificate_ids_are_derived_from_the_whole_key, DICE_ID_SALT,
};
use crate::keymint::rpc::{
    can_derive, gives_short_keys, is_ec_key, is_request_for, Artifacts, CsrSigningAlgorithm,
    DeriveBytes, DiceBootInfo, DiceInfo, DiceInfoModel, DiceStage, KeyMaterial, KeyRequest,
    NistCurve, SignRequest, StageKey,
};

verus! {

/// `field` is 64 bytes: the digest, as far as it fits, and then zeros.
pub open spec fn is_padded(field: Seq<u8>, digest: Seq<u8>) -> bool {
    &&& field.len() == 64
    &&& forall|j: int|
        0 <= j < 64 ==> #[trigger] field[j] == if j < digest.len() {
            digest[j]
        } else {
            0
        }
}

/// The four bytes of `n`, most significant first.
pub open spec fn four_bytes(n: u32) -> Seq<u8> {
    seq![
        (n / 0x100_0000) as u8,
        (n / 0x1_0000 % 0x100) as u8,
        (n / 0x100 % 0x100) as u8,
        (n % 0x100) as u8,
    ]
}

/// They are the big-endian bytes of `n`.
pub proof fn lemma_four_bytes(n: u32)
    ensures
        big_endian(n as nat, 4) == four_bytes(n),
{
    reveal_with_fuel(big_endian, 5);
    assert(big_endian(n as nat, 4) =~= four_bytes(n));
}

/// The bootloader's stage is versioned by the boot patch level, and measured over the verified boot
/// key and that patch level.
pub proof fn law_abl_stage_reports_the_boot_patch_level(boot: DiceBootInfo)
    ensures
        stage_models(boot).len() == 3,
        stage_models(boot)[0].name == "ABL"@,
        stage_models(boot)[0].version == boot.boot_patchlevel,
        stage_models(boot)[0].security_version == boot.boot_patchlevel,
        is_padded(
            stage_models(boot)[0].code_hash,
            sha256_digest(encode_utf8("ABL"@) + boot.vb_key@ + four_bytes(boot.boot_patchlevel)),
        ),
{
    lemma_four_bytes(boot.boot_patchlevel);
}

/// The stage of Android Verified Boot has the OS version as its version and the OS patch level as
/// its security version, and is measured by the verified boot hash.
pub proof fn law_avb_stage_reports_the_os_versions(boot: DiceBootInfo)
    ensures
        stage_models(boot)[1].name == "AVB"@,
        stage_models(boot)[1].version == boot.os_version,
        stage_models(boot)[1].security_version == boot.os_patchlevel,
        is_padded(stage_models(boot)[1].code_hash, boot.vb_hash@),
{
}

/// The KeyMint stage has the OS version as its version and the OS patch level as its security
/// version, and is measured over the verified boot key, the verified boot hash and that patch
/// level.
pub proof fn law_keymint_stage_reports_the_os_versions(boot: DiceBootInfo)
    ensures
        stage_models(boot)[2].name == "KeyMint"@,
        stage_models(boot)[2].version == boot.os_version,
        stage_models(boot)[2].security_version == boot.os_patchlevel,
        is_padded(
            stage_models(boot)[2].code_hash,
            sha256_digest(
                encode_utf8("KeyMint"@) + boot.vb_key@ + boot.vb_hash@ + four_bytes(
                    boot.os_patchlevel,
                ),
            ),
        ),
{
    lemma_four_bytes(boot.os_patchlevel);
}

/// What is said of a stage is said of the fields that are handed out.
pub proof fn law_stages_are_what_is_handed_out(stage: DiceStage, info: DiceInfo)
    ensures
        stage@.name == stage.name@,
        stage@.version == stage.version,
        stage@.security_version == stage.security_version,
        stage@.code_hash == stage.code_hash@,
        info@.dice_cert_chain == info.pub_dice_artifacts.dice_cert_chain@,
        info@.uds_certs == info.pub_dice_artifacts.uds_certs@,
        info@.signing_algorithm == info.signing_algorithm,
{
}

/// The configuration descriptor of the bootloader's entry reports the boot patch level twice, and
/// those of the two entries after it the OS version and the OS patch level.
pub proof fn law_descriptors_report_the_boot_state<K>(
    algo: CsrSigningAlgorithm,
    boot: DiceBootInfo,
    keys: Seq<StageKey<K>>,
)
    ensures
        has_field(
            entry_fields(algo, boot, keys, 0),
            LABEL_CONFIG_DESC,
            DataItem::Bytes(
                encode(
                    map_items(
                        seq![
                            (LABEL_COMPONENT_NAME as int, DataItem::Text("ABL"@)),
                            (
                                LABEL_COMPONENT_VERSION as int,
                                DataItem::Int(boot.boot_patchlevel as int),
                            ),
                            (
                                LABEL_SECURITY_VERSION as int,
                                DataItem::Int(boot.boot_patchlevel as int),
                            ),
                        ],
                    ),
                ),
            ),
        ),
        has_field(
            entry_fields(algo, boot, keys, 1),
            LABEL_CONFIG_DESC,
            DataItem::Bytes(
                encode(
                    map_items(
                        seq![
                            (LABEL_COMPONENT_NAME as int, DataItem::Text("AVB"@)),
                            (LABEL_COMPONENT_VERSION as int, DataItem::Int(boot.os_version as int)),
                            (
                                LABEL_SECURITY_VERSION as int,
                                DataItem::Int(boot.os_patchlevel as int),
                            ),
                        ],
                    ),
                ),
            ),
        ),
        has_field(
            entry_fields(algo, boot, keys, 2),
            LABEL_CONFIG_DESC,
            DataItem::Bytes(
                encode(
                    map_items(
                        seq![
                            (LABEL_COMPONENT_NAME as int, DataItem::Text("KeyMint"@)),
                            (LABEL_COMPONENT_VERSION as int, DataItem::Int(boot.os_version as int)),
                            (
                                LABEL_SECURITY_VERSION as int,
                                DataItem::Int(boot.os_patchlevel as int),
                            ),
                        ],
                    ),
                ),
            ),
        ),
{
    assert(entry_fields(algo, boot, keys, 0)[3].0 == LABEL_CONFIG_DESC);
    assert(entry_fields(algo, boot, keys, 1)[3].0 == LABEL_CONFIG_DESC);
    assert(entry_fields(algo, boot, keys, 2)[3].0 == LABEL_CONFIG_DESC);
}

/// ES256 is ECDSA on P-256 with SHA-256, ES384 is ECDSA on P-384 with SHA-384, and EdDSA signs the
/// data as it stands on Curve 25519.
pub proof fn law_algorithms_have_their_curve_and_digest(algo: CsrSigningAlgorithm)
    ensures
        algo is ES256 ==> curve_for(algo) is P256 && digest_for(algo) is Sha256 && cose_algorithm(
            algo,
        ) is ES256,
        algo is ES384 ==> curve_for(algo) is P384 && digest_for(algo) is Sha384 && cose_algorithm(
            algo,
        ) is ES384,
        algo is EdDSA ==> curve_for(algo) is Curve25519 && digest_for(algo) is NoDigest
            && cose_algorithm(algo) is EdDSA,
{
}

/// The profile is named after the Android version from 14 to 16, later versions follow that of 16,
/// and earlier ones have none.
pub proof fn law_profiles_follow_the_android_version(os_version: u32)
    ensures
        os_version < 14 ==> profile(os_version) is None,
        os_version == 14 ==> profile(os_version) == Some("android.14"@),
        os_version == 15 ==> profile(os_version) == Some("android.15"@),
        os_version >= 16 ==> profile(os_version) == Some("android.16"@),
{
}

/// The keys of a chain are made for these contexts, from the root to the leaf.
pub proof fn law_contexts_of_the_keys(boot: DiceBootInfo)
    ensures
        key_context(boot, 0) == encode_utf8("UDS Key Seed"@),
        key_context(boot, 1) == encode_utf8("CDI Key Seed: ABL"@),
        key_context(boot, 2) == encode_utf8("CDI Key Seed: AVB"@),
        key_context(boot, 3) == encode_utf8("Device Key Seed"@),
{
    reveal_strlit("CDI Key Seed: ");
    reveal_strlit("ABL");
    reveal_strlit("AVB");
    reveal_strlit("CDI Key Seed: ABL");
    reveal_strlit("CDI Key Seed: AVB");
    assert("CDI Key Seed: "@ + "ABL"@ =~= "CDI Key Seed: ABL"@);
    assert("CDI Key Seed: "@ + "AVB"@ =~= "CDI Key Seed: AVB"@);
}

/// An Ed25519 key is taken whole. A NIST key is taken without the tag 4 of an uncompressed point,
/// and whole if it has none.
pub proof fn law_only_the_tag_of_a_point_is_dropped(algo: CsrSigningAlgorithm, key: Seq<u8>)
    ensures
        algo is EdDSA ==> raw_key(algo, key) == key,
        !(algo is EdDSA) && key.len() > 0 && key[0] == 4 ==> key == seq![4u8] + raw_key(algo, key),
        !(algo is EdDSA) && (key.len() == 0 || key[0] != 4) ==> raw_key(algo, key) == key,
{
    if !(algo is EdDSA) && key.len() > 0 && key[0] == 4 {
        assert(key =~= seq![4u8] + raw_key(algo, key));
    }
}

/// `text` is the certificate ID of the key whose raw public key is `raw`: the hex text of the HKDF
/// output for all of it, without the top bit.
pub open spec fn is_id_of(text: Seq<char>, raw: Seq<u8>) -> bool {
    let output = hkdf_sha512_output(DICE_ID_SALT@, raw, encode_utf8("ID"@), 20);
    output.len() == 20 ==> {
        &&& text.len() == 40
        &&& byte_value(text, 0) == output[0] % 128
        &&& forall|i: int| 1 <= i < 20 ==> #[trigger] byte_value(text, i) == output[i]
    }
}

/// `text` is the certificate ID of the public key `key` of a chain for `algo`.
pub open spec fn is_key_id(text: Seq<char>, algo: CsrSigningAlgorithm, key: Seq<u8>) -> bool {
    &&& algo is EdDSA || key.len() == 0 || key[0] != 4 ==> is_id_of(text, key)
    &&& !(algo is EdDSA) && key.len() > 0 && key[0] == 4 ==> is_id_of(text, key.skip(1))
}

proof fn lemma_key_id<K>(algo: CsrSigningAlgorithm, key: StageKey<K>)
    ensures
        is_key_id(key_id(algo, key), algo, key.public_key@),
{
    let raw = raw_key(algo, key.public_key@);
    law_certificate_ids_are_derived_from_the_whole_key(raw);
    if !(algo is EdDSA) && key.public_key@.len() > 0 && key.public_key@[0] == 4 {
        assert(key.public_key@.skip(1) =~= raw);
    }
}

/// `config` describes boot stage `i`.
pub open spec fn describes_stage(
    config: Seq<(int, DataItem)>,
    boot: DiceBootInfo,
    i: int,
) -> bool {
    &&& config.len() == 3
    &&& config[0].0 == -70002
    &&& config[1].0 == -70003
    &&& config[2].0 == -70005
    &&& i == 0 ==> {
        &&& config[0].1 == DataItem::Text("ABL"@)
        &&& config[1].1 == DataItem::Int(boot.boot_patchlevel as int)
        &&& config[2].1 == DataItem::Int(boot.boot_patchlevel as int)
    }
    &&& i == 1 ==> config[0].1 == DataItem::Text("AVB"@)
    &&& i == 2 ==> config[0].1 == DataItem::Text("KeyMint"@)
    &&& i == 1 || i == 2 ==> {
        &&& config[1].1 == DataItem::Int(boot.os_version as int)
        &&& config[2].1 == DataItem::Int(boot.os_patchlevel as int)
    }
}

/// `hash` is the measurement of boot stage `i`.
pub open spec fn measures_stage(hash: Seq<u8>, boot: DiceBootInfo, i: int) -> bool {
    &&& i == 0 ==> is_padded(
        hash,
        sha256_digest(encode_utf8("ABL"@) + boot.vb_key@ + four_bytes(boot.boot_patchlevel)),
    )
    &&& i == 1 ==> is_padded(hash, boot.vb_hash@)
    &&& i == 2 ==> is_padded(
        hash,
        sha256_digest(
            encode_utf8("KeyMint"@) + boot.vb_key@ + boot.vb_hash@ + four_bytes(boot.os_patchlevel),
        ),
    )
}

/// `fields` certify the key `subject` of boot stage `i`, by the key `issuer`.
pub open spec fn certify_stage<K>(
    fields: Seq<(int, DataItem)>,
    config: Seq<(int, DataItem)>,
    algo: CsrSigningAlgorithm,
    boot: DiceBootInfo,
    issuer: StageKey<K>,
    subject: StageKey<K>,
    i: int,
) -> bool {
    let descriptor = encode(map_items(config));
    // Each field has its place.
    &&& fields.len() == if boot.os_version < 14 {
        9int
    } else {
        10
    }
    &&& fields[0].0 == 1
    &&& fields[0].1 is Text && is_key_id(fields[0].1->Text_0, algo, issuer.public_key@)
    &&& fields[1].0 == 2
    &&& fields[1].1 is Text && is_key_id(fields[1].1->Text_0, algo, subject.public_key@)
    &&& fields[2].0 == -4670545
    &&& fields[2].1 is Bytes && measures_stage(fields[2].1->Bytes_0, boot, i)
    &&& describes_stage(config, boot, i)
    &&& fields[3] == (-4670548int, DataItem::Bytes(descriptor))
    &&& fields[4] == (-4670547int, DataItem::Bytes(sha512_digest(descriptor)))
    &&& fields[5].0 == -4670549
    &&& fields[5].1 is Bytes && is_padded(
        fields[5].1->Bytes_0,
        sha256_digest(encode_utf8("authority"@) + boot.vb_key@),
    )
    &&& fields[6].0 == -4670551
    &&& boot.locked ==> fields[6].1 == DataItem::Bytes(seq![1u8])
    &&& !boot.locked ==> fields[6].1 == DataItem::Bytes(seq![2u8])
    &&& fields[7] == (-4670552int, DataItem::Bytes(encode(subject.cose_key.items())))
    &&& fields[8] == (-4670553int, DataItem::Bytes(seq![0x20u8]))
    &&& boot.os_version >= 14 ==> fields[9].0 == -4670554
    &&& boot.os_version == 14 ==> fields[9].1 == DataItem::Text("android.14"@)
    &&& boot.os_version == 15 ==> fields[9].1 == DataItem::Text("android.15"@)
    &&& boot.os_version >= 16 ==> fields[9].1 == DataItem::Text("android.16"@)
}

/// `data` is the payload by which the key `issuer` certifies the key `subject` of boot stage `i`.
pub open spec fn is_payload_for<K>(
    data: Seq<u8>,
    algo: CsrSigningAlgorithm,
    boot: DiceBootInfo,
    issuer: StageKey<K>,
    subject: StageKey<K>,
    i: int,
) -> bool {
    exists|fields: Seq<(int, DataItem)>, config: Seq<(int, DataItem)>|
        data == encode(map_items(fields)) && #[trigger] certify_stage(
            fields,
            config,
            algo,
            boot,
            issuer,
            subject,
            i,
        )
}

/// The payload of entry `i` certifies the key of stage `i` by the key before it, with the stage's
/// versions and measurement, the authority, the mode and the profile of the boot state.
pub proof fn law_payloads_certify_the_boot_state<K>(
    algo: CsrSigningAlgorithm,
    boot: DiceBootInfo,
    keys: Seq<StageKey<K>>,
    i: int,
)
    requires
        0 <= i < 3,
    ensures
        is_payload_for(entry_payload(algo, boot, keys, i), algo, boot, keys[i], keys[i + 1], i),
{
    let stage = stage_models(boot)[i];
    let fields = entry_fields(algo, boot, keys, i);
    let config = seq![
        (-70002int, DataItem::Text(stage.name)),
        (-70003int, DataItem::Int(stage.version as int)),
        (-70005int, DataItem::Int(stage.security_version as int)),
    ];
    lemma_key_id(algo, keys[i]);
    lemma_key_id(algo, keys[i + 1]);
    law_abl_stage_reports_the_boot_patch_level(boot);
    law_avb_stage_reports_the_os_versions(boot);
    law_keymint_stage_reports_the_os_versions(boot);
    assert(certify_stage(fields, config, algo, boot, keys[i], keys[i + 1], i));
}

/// The payload for a stage holds the names, the code hash, the descriptor and the key that it was
/// asked to, as they stand.
pub proof fn law_payloads_hold_what_they_are_given(
    boot: DiceBootInfo,
    issuer: Seq<char>,
    subject: Seq<char>,
    stage: StageModel,
    key: CoseKey,
)
    ensures
        exists|fields: Seq<(int, DataItem)>|
            {
                &&& payload(boot, issuer, subject, stage, key) == encode(
                    #[trigger] map_items(fields),
                )
                &&& fields.len() == if boot.os_version < 14 {
                    9int
                } else {
                    10
                }
                &&& fields[0] == (1int, DataItem::Text(issuer))
                &&& fields[1] == (2int, DataItem::Text(subject))
                &&& fields[2] == (-4670545int, DataItem::Bytes(stage.code_hash))
                &&& fields[3] == (
                    -4670548int,
                    DataItem::Bytes(
                        encode(
                            map_items(
                                seq![
                                    (-70002int, DataItem::Text(stage.name)),
                                    (-70003int, DataItem::Int(stage.version as int)),
                                    (-70005int, DataItem::Int(stage.security_version as int)),
                                ],
                            ),
                        ),
                    ),
                )
                &&& fields[3].1 is Bytes
                &&& fields[4] == (
                    -4670547int,
                    DataItem::Bytes(sha512_digest(fields[3].1->Bytes_0)),
                )
                &&& fields[5].0 == -4670549
                &&& fields[5].1 is Bytes
                &&& is_padded(
                    fields[5].1->Bytes_0,
                    sha256_digest(encode_utf8("authority"@) + boot.vb_key@),
                )
                &&& fields[6].0 == -4670551
                &&& boot.locked ==> fields[6].1 == DataItem::Bytes(seq![1u8])
                &&& !boot.locked ==> fields[6].1 == DataItem::Bytes(seq![2u8])
                &&& fields[7] == (-4670552int, DataItem::Bytes(encode(key.items())))
                &&& fields[8] == (-4670553int, DataItem::Bytes(seq![0x20u8]))
                &&& boot.os_version >= 14 ==> fields[9].0 == -4670554
                &&& boot.os_version == 14 ==> fields[9].1 == DataItem::Text("android.14"@)
                &&& boot.os_version == 15 ==> fields[9].1 == DataItem::Text("android.15"@)
                &&& boot.os_version >= 16 ==> fields[9].1 == DataItem::Text("android.16"@)
            },
{
    let fields = payload_fields(boot, issuer, subject, stage, key);
    assert(payload(boot, issuer, subject, stage, key) == encode(map_items(fields)));
}

/// The protected header of every entry of a chain for `algo`.
pub open spec fn header_of(algo: CsrSigningAlgorithm) -> Seq<u8> {
    match algo {
        CsrSigningAlgorithm::ES256 => seq![0xA1u8, 0x01, 0x26],
        CsrSigningAlgorithm::ES384 => seq![0xA1u8, 0x01, 0x38, 0x22],
        CsrSigningAlgorithm::EdDSA => seq![0xA1u8, 0x01, 0x27],
    }
}

/// The bytes of an entry with the given payload and signature.
pub open spec fn entry_bytes(
    algo: CsrSigningAlgorithm,
    payload: Seq<u8>,
    signature: Seq<u8>,
) -> Seq<u8> {
    seq![0x84u8] + encode(seq![DataItem::Bytes(header_of(algo))]) + seq![0xA0u8] + encode(
        seq![DataItem::Bytes(payload)],
    ) + encode(seq![DataItem::Bytes(signature)])
}

/// `sign` gave `r` when it was asked to sign all of `data` with `key`, as `algo` asks for it.
pub open spec fn signs_all_of<K, S: Fn(&K, SignRequest) -> Result<Vec<u8>, Error>>(
    sign: S,
    algo: CsrSigningAlgorithm,
    key: K,
    data: Seq<u8>,
    r: Result<Vec<u8>, Error>,
) -> bool {
    exists|q: SignRequest|
        {
            &&& #[trigger] sign.ensures((&key, q), r)
            &&& q.data@ == data
            &&& algo is ES256 ==> q.digest is Sha256 && q.curve is P256
            &&& algo is ES384 ==> q.digest is Sha384 && q.curve is P384
            &&& algo is EdDSA ==> q.digest is NoDigest && q.curve is Curve25519
        }
}

/// `q` asks for the key at position `i` of a chain for `algo`: one that is imported from the 32
/// bytes that `derive` gives for the position's context, or generated for that context.
pub open spec fn asks_for_key<T: DeriveBytes>(
    derive: T,
    algo: CsrSigningAlgorithm,
    i: int,
    q: KeyRequest,
) -> bool {
    let context = if i == 0 {
        encode_utf8("UDS Key Seed"@)
    } else if i == 1 {
        encode_utf8("CDI Key Seed: ABL"@)
    } else if i == 2 {
        encode_utf8("CDI Key Seed: AVB"@)
    } else {
        encode_utf8("Device Key Seed"@)
    };
    match q {
        KeyRequest::ImportEd25519(secret) => algo is EdDSA && exists|c: &[u8]|
            c@ == context && #[trigger] call_ensures(
                T::derive_bytes,
                (&derive, c, 32usize),
                Ok::<Vec<u8>, Error>(secret),
            ),
        KeyRequest::GenerateNist(NistCurve::P256, c) => algo is ES256 && c@ == context,
        KeyRequest::GenerateNist(NistCurve::P384, c) => algo is ES384 && c@ == context,
    }
}

/// `generate` gave `key` when it was asked for the key at position `i`.
pub open spec fn gives_key<
    T: DeriveBytes,
    K,
    G: Fn(KeyRequest) -> Result<KeyMaterial<K>, Error>,
>(generate: G, derive: T, algo: CsrSigningAlgorithm, i: int, key: StageKey<K>) -> bool {
    exists|q: KeyRequest| #[trigger]
        generate.ensures((q,), Ok(KeyMaterial::Ec(key))) && asks_for_key(derive, algo, i, q)
}

/// Data is signed whole, with the digest and on the curve of the signing algorithm, by the key that
/// the artifacts hold. Before they hold one, the request is refused.
pub proof fn law_data_is_signed_whole<
    T: DeriveBytes,
    K,
    S: Fn(&K, SignRequest) -> Result<Vec<u8>, Error>,
>(artifacts: &Artifacts<T, K>, sign: S, data: Seq<u8>, r: Result<Vec<u8>, Error>)
    requires
        artifacts.data_outcome(sign, data, r),
    ensures
        artifacts.signing_key() matches Some(key) ==> exists|q: SignRequest|
            {
                &&& #[trigger] sign.ensures((&key, q), r)
                &&& q.data@ == data
                &&& artifacts.algo() is ES256 ==> q.digest is Sha256 && q.curve is P256
                &&& artifacts.algo() is ES384 ==> q.digest is Sha384 && q.curve is P384
                &&& artifacts.algo() is EdDSA ==> q.digest is NoDigest && q.curve is Curve25519
            },
        artifacts.signing_key() is None ==> r is Err && r->Err_0 is Rpc && r->Err_0->Rpc_0
            == RpcErrorCode::Failed && r->Err_0->Rpc_1@ == "DICE artifacts are not initialized."@,
{
}

/// Only an elliptic curve key will do, and it is taken as it came. A failure to make it is passed
/// on.
pub proof fn law_elliptic_curve_keys_are_taken_as_they_come<K>(
    material: Result<KeyMaterial<K>, Error>,
    r: Result<StageKey<K>, Error>,
)
    requires
        is_ec_key(material, r),
    ensures
        r is Ok <==> material is Ok && material->Ok_0 is Ec,
        r is Ok ==> r->Ok_0 == material->Ok_0->Ec_0,
        material is Err ==> r->Err_0 == material->Err_0,
        material is Ok && material->Ok_0 is Other ==> r->Err_0 is Rpc && r->Err_0->Rpc_0
            == RpcErrorCode::Failed && r->Err_0->Rpc_1@
            == "expected the Ec variant of KeyMaterial for the cdi leaf key."@,
{
}

/// `e` says that a key is not one of an elliptic curve.
pub open spec fn is_not_an_ec_key(e: Error) -> bool {
    &&& e is Rpc
    &&& e->Rpc_0 == RpcErrorCode::Failed
    &&& e->Rpc_1@ == "expected the Ec variant of KeyMaterial for the cdi leaf key."@
}

/// A key comes of a request for its context. It is the one that was given for the request, and a
/// failure is that of the derivation, that of the generation, or that the key is of another kind.
pub proof fn law_keys_come_of_their_requests<
    T: DeriveBytes,
    K,
    G: Fn(KeyRequest) -> Result<KeyMaterial<K>, Error>,
>(artifacts: &Artifacts<T, K>, generate: G, context: Seq<u8>, r: Result<StageKey<K>, Error>)
    requires
        artifacts.key_outcome(generate, context, r),
    ensures
        r matches Ok(key) ==> exists|q: KeyRequest| #[trigger]
            generate.ensures((q,), Ok(KeyMaterial::Ec(key))) && match q {
                KeyRequest::ImportEd25519(secret) => artifacts.algo() is EdDSA && exists|c: &[u8]|
                    c@ == context && #[trigger] call_ensures(
                        T::derive_bytes,
                        (&artifacts.derivation(), c, 32usize),
                        Ok::<Vec<u8>, Error>(secret),
                    ),
                KeyRequest::GenerateNist(curve, c) => c@ == context && (curve is P256
                    && artifacts.algo() is ES256 || curve is P384 && artifacts.algo() is ES384),
            },
        r matches Err(e) ==> {
            ||| artifacts.algo() is EdDSA && exists|c: &[u8]|
                c@ == context && #[trigger] call_ensures(
                    T::derive_bytes,
                    (&artifacts.derivation(), c, 32usize),
                    Err::<Vec<u8>, Error>(e),
                )
            ||| exists|q: KeyRequest| #[trigger] generate.ensures((q,), Err(e))
            ||| is_not_an_ec_key(e) && exists|q: KeyRequest| #[trigger]
                generate.ensures((q,), Ok(KeyMaterial::Other))
        },
{
    match r {
        Ok(key) => {
            let (q, material) = choose|q: KeyRequest, material: Result<KeyMaterial<K>, Error>|
                {
                    &&& artifacts.is_key_request(context, Ok(q))
                    &&& #[trigger] generate.ensures((q,), material)
                    &&& is_ec_key(material, r)
                };
            assert(generate.ensures((q,), Ok(KeyMaterial::Ec(key))));
        },
        Err(e) => {
            if !artifacts.is_key_request(context, Err(e)) {
                let (q, material) = choose|q: KeyRequest, material: Result<KeyMaterial<K>, Error>|
                    {
                        &&& artifacts.is_key_request(context, Ok(q))
                        &&& #[trigger] generate.ensures((q,), material)
                        &&& is_ec_key(material, r)
                    };
                assert(material == Err::<KeyMaterial<K>, Error>(e) || material == Ok::<
                    KeyMaterial<K>,
                    Error,
                >(KeyMaterial::Other));
            }
        },
    }
}

/// What `info` holds of the keys `keys` and the signatures `signatures`: `UDS_Pub`, and three
/// entries, each of which certifies the key of its stage by the key before it and is signed, all of
/// it, by that key.
pub open spec fn is_whole_chain<
    T: DeriveBytes,
    K,
    G: Fn(KeyRequest) -> Result<KeyMaterial<K>, Error>,
    S: Fn(&K, SignRequest) -> Result<Vec<u8>, Error>,
>(
    derive: T,
    algo: CsrSigningAlgorithm,
    boot: DiceBootInfo,
    generate: G,
    sign: S,
    info: DiceInfoModel,
    keys: Seq<StageKey<K>>,
    signatures: Seq<Vec<u8>>,
    payloads: Seq<Seq<u8>>,
) -> bool {
    &&& keys.len() == 4
    &&& signatures.len() == 3
    &&& payloads.len() == 3
    &&& forall|i: int|
        0 <= i < 4 ==> gives_key(generate, derive, algo, i, #[trigger] keys[i])
    &&& forall|i: int|
        0 <= i < 3 ==> is_payload_for(#[trigger] payloads[i], algo, boot, keys[i], keys[i + 1], i)
    &&& forall|i: int|
        0 <= i < 3 ==> signs_all_of(
            sign,
            algo,
            keys[i].private_key,
            seq![0x84u8, 0x6A] + encode_utf8("Signature1"@) + encode(
                seq![DataItem::Bytes(header_of(algo))],
            ) + seq![0x40u8] + encode(seq![DataItem::Bytes(payloads[i])]),
            Ok(#[trigger] signatures[i]),
        )
    &&& info.dice_cert_chain == seq![0x84u8] + encode(keys[0].cose_key.items()) + entry_bytes(
        algo,
        payloads[0],
        signatures[0]@,
    ) + entry_bytes(algo, payloads[1], signatures[1]@) + entry_bytes(
        algo,
        payloads[2],
        signatures[2]@,
    )
    &&& info.uds_certs == seq![0xA0u8]
    &&& info.signing_algorithm == algo
}

/// The DICE information for a complete history is the whole chain of its keys and signatures.
pub proof fn law_information_holds_the_whole_chain<
    T: DeriveBytes,
    K,
    G: Fn(KeyRequest) -> Result<KeyMaterial<K>, Error>,
    S: Fn(&K, SignRequest) -> Result<Vec<u8>, Error>,
>(
    artifacts: &Artifacts<T, K>,
    generate: G,
    sign: S,
    history: ChainHistory<K>,
    info: DiceInfoModel,
)
    requires
        artifacts.can_grow(generate, sign, history),
        history.keys.len() == 4,
        artifacts.is_info_for(history, info),
    ensures
        exists|payloads: Seq<Seq<u8>>| #[trigger]
            is_whole_chain(
                artifacts.derivation(),
                artifacts.algo(),
                artifacts.boot_info(),
                generate,
                sign,
                info,
                history.keys,
                history.signatures,
                payloads,
            ),
{
    let derive = artifacts.derivation();
    let algo = artifacts.algo();
    let boot = artifacts.boot_info();
    let keys = history.keys;
    let signatures = history.signatures;
    let payloads = Seq::new(3, |i: int| entry_payload(algo, boot, keys, i));
    law_contexts_of_the_keys(boot);
    law_protected_headers_name_the_algorithm();
    assert(protected_header(cose_algorithm(algo)) == header_of(algo));
    assert forall|i: int| 0 <= i < 4 implies gives_key(
        generate,
        derive,
        algo,
        i,
        #[trigger] keys[i],
    ) by {
        artifacts.law_keys_match_the_signing_algorithm(generate, sign, history, i);
        let q = choose|q: KeyRequest| #[trigger]
            generate.ensures((q,), Ok(KeyMaterial::Ec(keys[i]))) && artifacts.is_key_request(
                key_context(boot, i),
                Ok(q),
            );
        assert(asks_for_key(derive, algo, i, q));
    }
    assert forall|i: int| 0 <= i < 3 implies is_payload_for(
        #[trigger] payloads[i],
        algo,
        boot,
        keys[i],
        keys[i + 1],
        i,
    ) by {
        law_payloads_certify_the_boot_state(algo, boot, keys, i);
    }
    assert forall|i: int| 0 <= i < 3 implies signs_all_of(
        sign,
        algo,
        keys[i].private_key,
        seq![0x84u8, 0x6A] + encode_utf8("Signature1"@) + encode(
            seq![DataItem::Bytes(header_of(algo))],
        ) + seq![0x40u8] + encode(seq![DataItem::Bytes(payloads[i])]),
        Ok(#[trigger] signatures[i]),
    ) by {
        law_the_whole_payload_is_signed(cose_algorithm(algo), payloads[i]);
        assert(artifacts.sign_outcome(
            sign,
            keys[i].private_key,
            entry_signed_data(algo, boot, keys, i),
            Ok(signatures[i]),
        ));
    }
    law_chain_has_an_entry_per_boot_stage(algo, boot, history);
    let alg = cose_algorithm(algo);
    let start = seq![DataItem::Elements(4)];
    let root = keys[0].cose_key.items();
    let a = sign1_items(alg, payloads[0], signatures[0]@);
    let b = sign1_items(alg, payloads[1], signatures[1]@);
    let c = sign1_items(alg, payloads[2], signatures[2]@);
    law_items_are_written_one_after_the_other(start + root + a + b, c);
    law_items_are_written_one_after_the_other(start + root + a, b);
    law_items_are_written_one_after_the_other(start + root, a);
    law_items_are_written_one_after_the_other(start, root);
    law_messages_are_written_whole(alg, payloads[0], signatures[0]@);
    law_messages_are_written_whole(alg, payloads[1], signatures[1]@);
    law_messages_are_written_whole(alg, payloads[2], signatures[2]@);
    lemma_encode_one(DataItem::Elements(4));
    lemma_encode_one(DataItem::Pairs(0));
    assert(encode(start) =~= seq![0x84u8]);
    assert(info.uds_certs =~= seq![0xA0u8]);
    assert(is_whole_chain(
        derive,
        algo,
        boot,
        generate,
        sign,
        info,
        keys,
        signatures,
        payloads,
    ));
}

/// DICE information that is generated is a whole chain for the boot state, and the key that signs
/// from then on is the private key of its last stage.
pub proof fn law_generated_information_is_a_whole_chain<
    T: DeriveBytes,
    K,
    G: Fn(KeyRequest) -> Result<KeyMaterial<K>, Error>,
    S: Fn(&K, SignRequest) -> Result<Vec<u8>, Error>,
>(
    before: &Artifacts<T, K>,
    generate: G,
    sign: S,
    after: Artifacts<T, K>,
    r: Result<DiceInfo, Error>,
)
    requires
        before.info() is None,
        before.info_outcome(generate, sign, after, r),
        r is Ok,
    ensures
        exists|keys: Seq<StageKey<K>>, signatures: Seq<Vec<u8>>, payloads: Seq<Seq<u8>>|
            {
                &&& #[trigger] is_whole_chain(
                    before.derivation(),
                    before.algo(),
                    before.boot_info(),
                    generate,
                    sign,
                    r->Ok_0@,
                    keys,
                    signatures,
                    payloads,
                )
                &&& after.signing_key() == Some(keys[3].private_key)
            },
        after.info() == Some(r->Ok_0@),
{
    let history = choose|history: ChainHistory<K>| #[trigger]
        before.can_grow(generate, sign, history) && history.keys.len() == 4 && before.is_info_for(
            history,
            r->Ok_0@,
        ) && after.signing_key() == Some(history.keys.last().private_key);
    law_information_holds_the_whole_chain(before, generate, sign, history, r->Ok_0@);
    let payloads = choose|payloads: Seq<Seq<u8>>| #[trigger]
        is_whole_chain(
            before.derivation(),
            before.algo(),
            before.boot_info(),
            generate,
            sign,
            r->Ok_0@,
            history.keys,
            history.signatures,
            payloads,
        );
    assert(is_whole_chain(
        before.derivation(),
        before.algo(),
        before.boot_info(),
        generate,
        sign,
        r->Ok_0@,
        history.keys,
        history.signatures,
        payloads,
    ));
}

/// DICE information that is there is answered as it is, and nothing changes.
pub proof fn law_information_is_answered_again<
    T: DeriveBytes,
    K,
    G: Fn(KeyRequest) -> Result<KeyMaterial<K>, Error>,
    S: Fn(&K, SignRequest) -> Result<Vec<u8>, Error>,
>(
    before: &Artifacts<T, K>,
    generate: G,
    sign: S,
    after: Artifacts<T, K>,
    r: Result<DiceInfo, Error>,
)
    requires
        before.info() is Some,
        before.info_outcome(generate, sign, after, r),
    ensures
        r is Ok,
        r->Ok_0.pub_dice_artifacts.dice_cert_chain@ == before.info()->0.dice_cert_chain,
        r->Ok_0.pub_dice_artifacts.uds_certs@ == before.info()->0.uds_certs,
        r->Ok_0.signing_algorithm == before.algo(),
        after == *before,
{
}

/// `e` has a cause outside: it is the error of a derivation, of the generation of a key or of a
/// signature, or a key came that is not a well-formed elliptic curve key.
pub open spec fn has_outside_cause<
    T: DeriveBytes,
    K,
    G: Fn(KeyRequest) -> Result<KeyMaterial<K>, Error>,
    S: Fn(&K, SignRequest) -> Result<Vec<u8>, Error>,
>(derive: T, algo: CsrSigningAlgorithm, generate: G, sign: S, e: Error) -> bool {
    ||| algo is EdDSA && exists|c: &[u8]| #[trigger]
        call_ensures(T::derive_bytes, (&derive, c, 32usize), Err::<Vec<u8>, Error>(e))
    ||| exists|q: KeyRequest| #[trigger] generate.ensures((q,), Err(e))
    ||| is_not_an_ec_key(e) && exists|q: KeyRequest| #[trigger]
        generate.ensures((q,), Ok(KeyMaterial::Other))
    ||| e == Error::Cbor(CborError::DuplicateMapKey) && exists|q: KeyRequest, key: StageKey<K>|
        #[trigger]
        generate.ensures((q,), Ok(KeyMaterial::Ec(key))) && !key.cose_key.params@.map_values(
            |p: (i64, KeyParam)| p.0,
        ).no_duplicates()
    ||| exists|k: &K, q: SignRequest| #[trigger] sign.ensures((k, q), Err(e))
}

/// A chain breaks off only with an error that has a cause outside.
pub proof fn law_chains_break_off_for_an_outside_cause<
    T: DeriveBytes,
    K,
    G: Fn(KeyRequest) -> Result<KeyMaterial<K>, Error>,
    S: Fn(&K, SignRequest) -> Result<Vec<u8>, Error>,
>(artifacts: &Artifacts<T, K>, generate: G, sign: S, history: ChainHistory<K>, e: Error)
    requires
        artifacts.can_break_off(generate, sign, history, e),
    ensures
        has_outside_cause(artifacts.derivation(), artifacts.algo(), generate, sign, e),
{
    let n = history.keys.len() as int;
    let context = key_context(artifacts.boot_info(), n);
    if artifacts.key_outcome(generate, context, Err(e)) {
        law_keys_come_of_their_requests(artifacts, generate, context, Err(e));
    } else if exists|key: StageKey<K>| #[trigger]
        artifacts.key_outcome(generate, context, Ok(key)) && !key.cose_key.has_distinct_labels()
            && e == Error::Cbor(CborError::DuplicateMapKey) {
        let key = choose|key: StageKey<K>| #[trigger]
            artifacts.key_outcome(generate, context, Ok(key))
                && !key.cose_key.has_distinct_labels() && e == Error::Cbor(
                CborError::DuplicateMapKey,
            );
        law_keys_come_of_their_requests(artifacts, generate, context, Ok(key));
        law_keys_are_refused_for_a_repeated_label(key.cose_key);
    }
}

/// The DICE information cannot be had only for a cause outside. Nothing changes then.
pub proof fn law_failures_have_an_outside_cause<
    T: DeriveBytes,
    K,
    G: Fn(KeyRequest) -> Result<KeyMaterial<K>, Error>,
    S: Fn(&K, SignRequest) -> Result<Vec<u8>, Error>,
>(
    before: &Artifacts<T, K>,
    generate: G,
    sign: S,
    after: Artifacts<T, K>,
    r: Result<DiceInfo, Error>,
)
    requires
        before.info_outcome(generate, sign, after, r),
        r is Err,
    ensures
        after == *before,
        before.info() is None,
        has_outside_cause(before.derivation(), before.algo(), generate, sign, r->Err_0),
{
    let history = choose|history: ChainHistory<K>| #[trigger]
        before.can_break_off(generate, sign, history, r->Err_0);
    law_chains_break_off_for_an_outside_cause(before, generate, sign, history, r->Err_0);
}

/// The DICE information is had, if it is not there already, where every derivation gives a secret,
/// every request for a key gives a well-formed elliptic curve key, and every request to sign gives a
/// signature.
pub proof fn law_nothing_else_can_fail<
    T: DeriveBytes,
    K,
    G: Fn(KeyRequest) -> Result<KeyMaterial<K>, Error>,
    S: Fn(&K, SignRequest) -> Result<Vec<u8>, Error>,
>(
    before: &Artifacts<T, K>,
    generate: G,
    sign: S,
    after: Artifacts<T, K>,
    r: Result<DiceInfo, Error>,
)
    requires
        before.info_outcome(generate, sign, after, r),
        before.algo() is EdDSA ==> forall|c: &[u8], d: Result<Vec<u8>, Error>| #[trigger]
            call_ensures(T::derive_bytes, (&before.derivation(), c, 32usize), d) ==> d is Ok,
        forall|q: KeyRequest, m: Result<KeyMaterial<K>, Error>| #[trigger]
            generate.ensures((q,), m) ==> m is Ok && m->Ok_0 is Ec
                && m->Ok_0->Ec_0.cose_key.params@.map_values(
                |p: (i64, KeyParam)| p.0,
            ).no_duplicates(),
        forall|k: &K, q: SignRequest, d: Result<Vec<u8>, Error>| #[trigger]
            sign.ensures((k, q), d) ==> d is Ok,
    ensures
        r is Ok,
{
    if r is Err {
        law_failures_have_an_outside_cause(before, generate, sign, after, r);
    }
}

/// A generator is held to nothing but a bound on the length of its public keys that no key reaches.
pub proof fn law_any_generator_of_bounded_keys_will_do<
    K,
    G: Fn(KeyRequest) -> Result<KeyMaterial<K>, Error>,
>(generate: G)
    requires
        forall|q: KeyRequest, key: StageKey<K>| #[trigger]
            generate.ensures((q,), Ok(KeyMaterial::Ec(key))) ==> key.public_key@.len()
                <= 0x1000_0000_0000_0000,
    ensures
        gives_short_keys(generate),
{
}

/// A request for the DICE information leaves the derivation, the signing algorithm and the boot
/// state as they were, whatever comes of it.
pub proof fn law_requests_keep_the_configuration<
    T: DeriveBytes,
    K,
    G: Fn(KeyRequest) -> Result<KeyMaterial<K>, Error>,
    S: Fn(&K, SignRequest) -> Result<Vec<u8>, Error>,
>(
    before: &Artifacts<T, K>,
    generate: G,
    sign: S,
    after: Artifacts<T, K>,
    r: Result<DiceInfo, Error>,
)
    requires
        before.info_outcome(generate, sign, after, r),
    ensures
        after.derivation() == before.derivation(),
        after.algo() == before.algo(),
        after.boot_info() == before.boot_info(),
        r is Ok ==> after.info() is Some && after.signing_key() is Some,
        r is Err ==> after.info() is None && after.signing_key() is None,
{
    if r is Err {
        before.law_info_comes_with_its_key();
    }
}

/// In every state, artifacts that hold DICE information hold a chain for their algorithm and boot
/// state, and the private key of the key that its last entry certifies. That key was made for their
/// algorithm.
pub proof fn law_populated_artifacts_hold_their_chain<T: DeriveBytes, K>(artifacts: &Artifacts<T, K>)
    requires
        artifacts.wf(),
        artifacts.info() is Some,
    ensures
        artifacts.info()->0.signing_algorithm == artifacts.algo(),
        exists|history: ChainHistory<K>, q: KeyRequest|
            {
                &&& artifacts.info()->0.dice_cert_chain == #[trigger] dice_cert_chain(
                    artifacts.algo(),
                    artifacts.boot_info(),
                    history,
                )
                &&& history.keys.len() == 4
                &&& history.signatures.len() == 3
                &&& #[trigger] (artifacts.origin())(q, history.keys[3])
                &&& artifacts.signing_key() == Some(history.keys[3].private_key)
                &&& artifacts.algo() is EdDSA <==> q is ImportEd25519
                &&& artifacts.algo() is ES256 ==> q->GenerateNist_0 is P256
                &&& artifacts.algo() is ES384 ==> q->GenerateNist_0 is P384
            },
{
    let info = artifacts.info()->0;
    let key = artifacts.signing_key()->0;
    let algo = artifacts.algo();
    let boot = artifacts.boot_info();
    let origin = artifacts.origin();
    let (history, q) = choose|history: ChainHistory<K>, q: KeyRequest|
        {
            &&& info.dice_cert_chain == #[trigger] dice_cert_chain(algo, boot, history)
            &&& history.keys.len() == 4
            &&& history.signatures.len() == 3
            &&& #[trigger] origin(q, history.keys.last())
            &&& is_request_for(algo, q)
            &&& key == history.keys.last().private_key
        };
    assert(history.keys.last() == history.keys[3]);
    assert(origin(q, history.keys[3]));
}

/// A derivation is asked for the whole of the context and for as many bytes as are wanted.
pub proof fn law_derivations_are_asked_as_they_are<T: DeriveBytes>(
    derive: T,
    context: Seq<u8>,
    output_len: usize,
    r: Result<Vec<u8>, Error>,
)
    ensures
        can_derive(derive, context, output_len, r) <==> exists|c: &[u8]|
            c@ == context && #[trigger] call_ensures(
                T::derive_bytes,
                (&derive, c, output_len),
                r,
            ),
{
}

/// A request for an Ed25519 key holds the 32 bytes that are derived from all of the context, or
/// fails as the derivation does. A request for a NIST key names the algorithm's curve and all of the
/// context, and never fails.
pub proof fn law_requests_follow_the_algorithm<T: DeriveBytes, K>(
    artifacts: &Artifacts<T, K>,
    context: Seq<u8>,
    r: Result<KeyRequest, Error>,
)
    requires
        artifacts.is_key_request(context, r),
    ensures
        artifacts.algo() is EdDSA ==> match r {
            Ok(q) => q is ImportEd25519 && exists|c: &[u8]|
                c@ == context && #[trigger] call_ensures(
                    T::derive_bytes,
                    (&artifacts.derivation(), c, 32usize),
                    Ok::<Vec<u8>, Error>(q->ImportEd25519_0),
                ),
            Err(e) => exists|c: &[u8]|
                c@ == context && #[trigger] call_ensures(
                    T::derive_bytes,
                    (&artifacts.derivation(), c, 32usize),
                    Err::<Vec<u8>, Error>(e),
                ),
        },
        !(artifacts.algo() is EdDSA) ==> r is Ok && r->Ok_0 is GenerateNist
            && r->Ok_0->GenerateNist_1@ == context,
        artifacts.algo() is ES256 ==> r->Ok_0->GenerateNist_0 is P256,
        artifacts.algo() is ES384 ==> r->Ok_0->GenerateNist_0 is P384,
{
}

/// The mode is 1 on a locked device and 2 on an unlocked one.
pub proof fn law_modes_of_the_boot_state(boot: DiceBootInfo)
    ensures
        boot.locked ==> dice_mode(boot) == 1,
        !boot.locked ==> dice_mode(boot) == 2,
{
}

} // verus!
