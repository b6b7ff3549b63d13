//! What a DICE chain holds: `UDS_Pub`, followed by one signed entry per boot stage.

use vstd::prelude::*;
use vstd::utf8::{encode_utf8, is_ascii_chars_encode_utf8};

use crate::cbor::{
    big_endian, encode, item_bytes, law_items_are_written_one_after_the_other,
    law_map_items_hold_every_field, lemma_encode_one, lemma_head_len, map_items, DataItem,
};
use crate::cose::{sig_structure, sign1_items, CoseAlgorithm, CoseKey};
use crate::digest::sha512_digest;
use crate::keymint::dice::{certificate_id, hash_field, measured, DICE_HASH_LEN};
use crate::keymint::rpc::{CsrSigningAlgorithm, DiceBootInfo, Digest, EcCurve, StageKey};

verus! {

/// Labels of the `DiceChainEntryPayload` fields, from RFC 8392 and the Open Profile for DICE.
pub const LABEL_ISSUER: i64 = 1;

pub const LABEL_SUBJECT: i64 = 2;

pub const LABEL_CODE_HASH: i64 = -4670545;

pub const LABEL_CONFIG_HASH: i64 = -4670547;

pub const LABEL_CONFIG_DESC: i64 = -4670548;

pub const LABEL_AUTHORITY_HASH: i64 = -4670549;

pub const LABEL_MODE: i64 = -4670551;

pub const LABEL_SUBJECT_PUBLIC_KEY: i64 = -4670552;

pub const LABEL_KEY_USAGE: i64 = -4670553;

pub const LABEL_PROFILE_NAME: i64 = -4670554;

/// Labels of the `ConfigurationDescriptor` fields, from the Android Profile for DICE.
pub const LABEL_COMPONENT_NAME: i64 = -70002;

pub const LABEL_COMPONENT_VERSION: i64 = -70003;

pub const LABEL_SECURITY_VERSION: i64 = -70005;

/// Key usage bits which correspond to `keyCertSign` as per RFC 5280 section 4.2.1.3, in the
/// little-endian byte order used by the DICE profile.
pub const KEY_USAGE_CERT_SIGN: u8 = 0x20;

/// DICE mode for a stage that booted with verified boot in its normal, locked state.
pub const MODE_NORMAL: u8 = 1;

/// DICE mode for a stage that booted with verification disabled or the bootloader unlocked.
pub const MODE_DEBUG: u8 = 2;

/// Both describe the same boot state.
pub open spec fn is_same_boot(a: DiceBootInfo, b: DiceBootInfo) -> bool {
    &&& a.vb_key@ == b.vb_key@
    &&& a.vb_hash@ == b.vb_hash@
    &&& a.boot_patchlevel == b.boot_patchlevel
    &&& a.os_patchlevel == b.os_patchlevel
    &&& a.os_version == b.os_version
    &&& a.locked == b.locked
}

/// The contents of a boot stage.
pub struct StageModel {
    /// Component name.
    pub name: Seq<char>,
    /// Component version.
    pub version: u64,
    /// Security version.
    pub security_version: u64,
    /// Code hash.
    pub code_hash: Seq<u8>,
}

/// The Android bootloader, which is measured with the verified boot key and the boot patch level.
pub open spec fn abl_stage(boot: DiceBootInfo) -> StageModel {
    StageModel {
        name: "ABL"@,
        version: boot.boot_patchlevel as u64,
        security_version: boot.boot_patchlevel as u64,
        code_hash: measured(
            encode_utf8("ABL"@) + boot.vb_key@ + big_endian(boot.boot_patchlevel as nat, 4),
        ),
    }
}

/// Android Verified Boot, whose measurement is the verified boot hash.
pub open spec fn avb_stage(boot: DiceBootInfo) -> StageModel {
    StageModel {
        name: "AVB"@,
        version: boot.os_version as u64,
        security_version: boot.os_patchlevel as u64,
        code_hash: hash_field(boot.vb_hash@),
    }
}

/// KeyMint, which is measured with all of the verified boot key, the verified boot hash and the
/// OS patch level.
pub open spec fn keymint_stage(boot: DiceBootInfo) -> StageModel {
    StageModel {
        name: "KeyMint"@,
        version: boot.os_version as u64,
        security_version: boot.os_patchlevel as u64,
        code_hash: measured(
            encode_utf8("KeyMint"@) + boot.vb_key@ + boot.vb_hash@ + big_endian(
                boot.os_patchlevel as nat,
                4,
            ),
        ),
    }
}

/// The boot stages in the order in which they run.
pub open spec fn stage_models(boot: DiceBootInfo) -> Seq<StageModel> {
    seq![abl_stage(boot), avb_stage(boot), keymint_stage(boot)]
}

/// The names of the boot stages are short.
pub proof fn lemma_stage_names(boot: DiceBootInfo)
    ensures
        forall|i: int|
            0 <= i < stage_models(boot).len() ==> encode_utf8(
                (#[trigger] stage_models(boot)[i]).name,
            ).len() <= 7,
{
    reveal_strlit("ABL");
    reveal_strlit("AVB");
    reveal_strlit("KeyMint");
    is_ascii_chars_encode_utf8("ABL"@);
    is_ascii_chars_encode_utf8("AVB"@);
    is_ascii_chars_encode_utf8("KeyMint"@);
}

/// The number of boot stages.
pub const STAGE_COUNT: usize = 3;

/// The DICE mode of every boot stage.
pub open spec fn dice_mode(boot: DiceBootInfo) -> u8 {
    if boot.locked {
        MODE_NORMAL
    } else {
        MODE_DEBUG
    }
}

/// The version of the Android Profile for DICE that a chain follows. Profile names were introduced
/// with Android 14.
pub open spec fn profile(os_version: u32) -> Option<Seq<char>> {
    if os_version < 14 {
        None
    } else if os_version == 14 {
        Some("android.14"@)
    } else if os_version == 15 {
        Some("android.15"@)
    } else {
        Some("android.16"@)
    }
}

/// The authority for every stage: the verified boot key, which signed the boot chain.
pub open spec fn authority_hash(boot: DiceBootInfo) -> Seq<u8> {
    measured(encode_utf8("authority"@) + boot.vb_key@)
}

/// The fields of the `ConfigurationDescriptor` of `stage`.
pub open spec fn config_fields(stage: StageModel) -> Seq<(int, DataItem)> {
    seq![
        (LABEL_COMPONENT_NAME as int, DataItem::Text(stage.name)),
        (LABEL_COMPONENT_VERSION as int, DataItem::Int(stage.version as int)),
        (LABEL_SECURITY_VERSION as int, DataItem::Int(stage.security_version as int)),
    ]
}

/// The serialized `ConfigurationDescriptor` of `stage`.
pub open spec fn config_descriptor(stage: StageModel) -> Seq<u8> {
    encode(map_items(config_fields(stage)))
}

/// A `ConfigurationDescriptor` is not much longer than the component name in it.
pub proof fn lemma_config_descriptor_len(stage: StageModel)
    ensures
        config_descriptor(stage).len() <= encode_utf8(stage.name).len() + 64,
{
    let fields = config_fields(stage);
    let name = DataItem::Text(stage.name);
    let version = DataItem::Int(stage.version as int);
    let security_version = DataItem::Int(stage.security_version as int);
    let x = seq![DataItem::Pairs(3), DataItem::Int(LABEL_COMPONENT_NAME as int)];
    let y = seq![name, DataItem::Int(LABEL_COMPONENT_VERSION as int)];
    let z = seq![version, DataItem::Int(LABEL_SECURITY_VERSION as int)];
    assert(map_items(fields) =~= x + y + z + seq![security_version]) by {
        law_map_items_hold_every_field(fields);
        assert(fields[0].1 == name && fields[1].1 == version && fields[2].1 == security_version);
    }
    law_items_are_written_one_after_the_other(x + y + z, seq![security_version]);
    law_items_are_written_one_after_the_other(x + y, z);
    law_items_are_written_one_after_the_other(x, y);
    lemma_pair_len(x[0], x[1]);
    lemma_pair_len(y[0], y[1]);
    lemma_pair_len(z[0], z[1]);
    lemma_encode_one(security_version);
    lemma_item_len(security_version);
}

proof fn lemma_item_len(item: DataItem)
    ensures
        item is Int || item is Pairs ==> item_bytes(item).len() <= 9,
        item matches DataItem::Text(t) ==> item_bytes(item).len() <= 9 + encode_utf8(t).len(),
{
    match item {
        DataItem::Int(n) => if n >= 0 {
            lemma_head_len(0, n as nat);
        } else {
            lemma_head_len(1, (-1 - n) as nat);
        },
        DataItem::Pairs(n) => lemma_head_len(5, n),
        DataItem::Text(t) => lemma_head_len(3, encode_utf8(t).len()),
        _ => {},
    }
}

proof fn lemma_pair_len(a: DataItem, b: DataItem)
    requires
        a is Int || a is Pairs || a is Text,
        b is Int,
    ensures
        a is Text ==> encode(seq![a, b]).len() <= 18 + encode_utf8(a->Text_0).len(),
        !(a is Text) ==> encode(seq![a, b]).len() <= 18,
{
    lemma_item_len(a);
    lemma_item_len(b);
    lemma_encode_one(a);
    lemma_encode_one(b);
    law_items_are_written_one_after_the_other(seq![a], seq![b]);
    assert(seq![a] + seq![b] =~= seq![a, b]);
}

/// The fields of the `DiceChainEntryPayload` by which the holder of `issuer` certifies `key`, as
/// the key `subject` of `stage`.
pub open spec fn payload_fields(
    boot: DiceBootInfo,
    issuer: Seq<char>,
    subject: Seq<char>,
    stage: StageModel,
    key: CoseKey,
) -> Seq<(int, DataItem)> {
    let fields = seq![
        (LABEL_ISSUER as int, DataItem::Text(issuer)),
        (LABEL_SUBJECT as int, DataItem::Text(subject)),
        (LABEL_CODE_HASH as int, DataItem::Bytes(stage.code_hash)),
        (LABEL_CONFIG_DESC as int, DataItem::Bytes(config_descriptor(stage))),
        (LABEL_CONFIG_HASH as int, DataItem::Bytes(sha512_digest(config_descriptor(stage)))),
        (LABEL_AUTHORITY_HASH as int, DataItem::Bytes(authority_hash(boot))),
        (LABEL_MODE as int, DataItem::Bytes(seq![dice_mode(boot)])),
        (LABEL_SUBJECT_PUBLIC_KEY as int, DataItem::Bytes(encode(key.items()))),
        (LABEL_KEY_USAGE as int, DataItem::Bytes(seq![KEY_USAGE_CERT_SIGN])),
    ];
    match profile(boot.os_version) {
        Some(name) => fields.push((LABEL_PROFILE_NAME as int, DataItem::Text(name))),
        None => fields,
    }
}

/// The serialized `DiceChainEntryPayload`.
pub open spec fn payload(
    boot: DiceBootInfo,
    issuer: Seq<char>,
    subject: Seq<char>,
    stage: StageModel,
    key: CoseKey,
) -> Seq<u8> {
    encode(map_items(payload_fields(boot, issuer, subject, stage, key)))
}

/// The COSE algorithm that goes with a signing algorithm.
pub open spec fn cose_algorithm(algo: CsrSigningAlgorithm) -> CoseAlgorithm {
    match algo {
        CsrSigningAlgorithm::ES256 => CoseAlgorithm::ES256,
        CsrSigningAlgorithm::ES384 => CoseAlgorithm::ES384,
        CsrSigningAlgorithm::EdDSA => CoseAlgorithm::EdDSA,
    }
}

/// The public key material that a certificate ID is derived from: an Ed25519 key as it stands, a
/// NIST key without the tag of an uncompressed point.
pub open spec fn raw_key(algo: CsrSigningAlgorithm, pub_key: Seq<u8>) -> Seq<u8> {
    if algo != CsrSigningAlgorithm::EdDSA && pub_key.len() > 0 && pub_key[0] == 0x04 {
        pub_key.subrange(1, pub_key.len() as int)
    } else {
        pub_key
    }
}

/// The certificate ID of a stage's key.
pub open spec fn key_id<K>(algo: CsrSigningAlgorithm, key: StageKey<K>) -> Seq<char> {
    certificate_id(raw_key(algo, key.public_key@))
}

/// What has come in for a chain so far: the keys, that of the UDS first and then one per boot
/// stage, and the signatures of the entries.
pub struct ChainHistory<K> {
    /// Keys, in the order in which they were generated.
    pub keys: Seq<StageKey<K>>,
    /// Signatures, in the order of the entries.
    pub signatures: Seq<Vec<u8>>,
}

/// The fields of the payload of entry `i`, which certifies the key of stage `i` by the key before
/// it.
pub open spec fn entry_fields<K>(
    algo: CsrSigningAlgorithm,
    boot: DiceBootInfo,
    keys: Seq<StageKey<K>>,
    i: int,
) -> Seq<(int, DataItem)> {
    payload_fields(
        boot,
        key_id(algo, keys[i]),
        key_id(algo, keys[i + 1]),
        stage_models(boot)[i],
        keys[i + 1].cose_key,
    )
}

/// The payload of entry `i`.
pub open spec fn entry_payload<K>(
    algo: CsrSigningAlgorithm,
    boot: DiceBootInfo,
    keys: Seq<StageKey<K>>,
    i: int,
) -> Seq<u8> {
    encode(map_items(entry_fields(algo, boot, keys, i)))
}

/// The bytes that the signature of entry `i` is over.
pub open spec fn entry_signed_data<K>(
    algo: CsrSigningAlgorithm,
    boot: DiceBootInfo,
    keys: Seq<StageKey<K>>,
    i: int,
) -> Seq<u8> {
    sig_structure(cose_algorithm(algo), entry_payload(algo, boot, keys, i))
}

/// The data items of element `i` of the chain: `UDS_Pub`, or the entry before.
pub open spec fn chain_element<K>(
    algo: CsrSigningAlgorithm,
    boot: DiceBootInfo,
    history: ChainHistory<K>,
    i: int,
) -> Seq<DataItem> {
    if i == 0 {
        history.keys[0].cose_key.items()
    } else {
        sign1_items(
            cose_algorithm(algo),
            entry_payload(algo, boot, history.keys, i - 1),
            history.signatures[i - 1]@,
        )
    }
}

/// The data items of the first `n` elements of the chain.
pub open spec fn chain_elements<K>(
    algo: CsrSigningAlgorithm,
    boot: DiceBootInfo,
    history: ChainHistory<K>,
    n: nat,
) -> Seq<DataItem>
    decreases n,
{
    if n == 0 {
        seq![]
    } else {
        chain_elements(algo, boot, history, (n - 1) as nat) + chain_element(
            algo,
            boot,
            history,
            n - 1,
        )
    }
}

/// Chains with the same elements have the same data items.
pub proof fn lemma_chain_elements_equal<K>(
    algo: CsrSigningAlgorithm,
    boot: DiceBootInfo,
    a: ChainHistory<K>,
    other: DiceBootInfo,
    b: ChainHistory<K>,
    n: nat,
)
    requires
        forall|i: int|
            0 <= i < n ==> chain_element(algo, boot, a, i) == #[trigger] chain_element(
                algo,
                other,
                b,
                i,
            ),
    ensures
        chain_elements(algo, boot, a, n) == chain_elements(algo, other, b, n),
    decreases n,
{
    if n > 0 {
        lemma_chain_elements_equal(algo, boot, a, other, b, (n - 1) as nat);
    }
}

/// The first elements of a chain stay as they are when more comes in.
pub proof fn lemma_chain_elements_grow<K>(
    algo: CsrSigningAlgorithm,
    boot: DiceBootInfo,
    before: ChainHistory<K>,
    after: ChainHistory<K>,
    n: nat,
)
    requires
        n <= before.keys.len() <= after.keys.len(),
        n <= before.signatures.len() + 1,
        before.signatures.len() <= after.signatures.len(),
        forall|i: int| 0 <= i < before.keys.len() ==> before.keys[i] == #[trigger] after.keys[i],
        forall|i: int|
            0 <= i < before.signatures.len() ==> before.signatures[i]
                == #[trigger] after.signatures[i],
    ensures
        chain_elements(algo, boot, before, n) == chain_elements(algo, boot, after, n),
{
    assert forall|i: int| 0 <= i < n implies chain_element(algo, boot, before, i)
        == #[trigger] chain_element(algo, boot, after, i) by {
        assert(before.keys[i] == after.keys[i]);
        if i > 0 {
            assert(before.keys[i - 1] == after.keys[i - 1]);
            assert(before.signatures[i - 1] == after.signatures[i - 1]);
        }
    }
    lemma_chain_elements_equal(algo, boot, before, boot, after, n);
}

/// The serialized `DiceCertChain`: `UDS_Pub` and an entry for each signature.
pub open spec fn dice_cert_chain<K>(
    algo: CsrSigningAlgorithm,
    boot: DiceBootInfo,
    history: ChainHistory<K>,
) -> Seq<u8> {
    let n = 1 + history.signatures.len();
    encode(seq![DataItem::Elements(n)] + chain_elements(algo, boot, history, n))
}

/// The digest that is applied to data before it is signed.
pub open spec fn digest_for(algo: CsrSigningAlgorithm) -> Digest {
    match algo {
        CsrSigningAlgorithm::ES256 => Digest::Sha256,
        CsrSigningAlgorithm::ES384 => Digest::Sha384,
        CsrSigningAlgorithm::EdDSA => Digest::NoDigest,
    }
}

/// The curve that goes with a signing algorithm.
pub open spec fn curve_for(algo: CsrSigningAlgorithm) -> EcCurve {
    match algo {
        CsrSigningAlgorithm::ES256 => EcCurve::P256,
        CsrSigningAlgorithm::ES384 => EcCurve::P384,
        CsrSigningAlgorithm::EdDSA => EcCurve::Curve25519,
    }
}

/// The context that the key of position `i` in the chain is derived with: position 0 is the UDS,
/// and the last one keeps the context that has always been used for the leaf key.
pub open spec fn key_context(boot: DiceBootInfo, i: int) -> Seq<u8> {
    if i == 0 {
        encode_utf8("UDS Key Seed"@)
    } else if i == STAGE_COUNT {
        encode_utf8("Device Key Seed"@)
    } else {
        encode_utf8("CDI Key Seed: "@ + stage_models(boot)[i - 1].name)
    }
}

/// `fields` holds `item` under `label`.
pub open spec fn has_field(fields: Seq<(int, DataItem)>, label: i64, item: DataItem) -> bool {
    fields.contains((label as int, item))
}

/// A complete chain holds `UDS_Pub`, followed by one entry per boot stage.
pub proof fn law_chain_has_an_entry_per_boot_stage<K>(
    algo: CsrSigningAlgorithm,
    boot: DiceBootInfo,
    history: ChainHistory<K>,
)
    requires
        history.signatures.len() == STAGE_COUNT,
    ensures
        stage_models(boot).len() == STAGE_COUNT,
        dice_cert_chain(algo, boot, history) == encode(
            seq![DataItem::Elements(4)] + history.keys[0].cose_key.items() + sign1_items(
                cose_algorithm(algo),
                entry_payload(algo, boot, history.keys, 0),
                history.signatures[0]@,
            ) + sign1_items(
                cose_algorithm(algo),
                entry_payload(algo, boot, history.keys, 1),
                history.signatures[1]@,
            ) + sign1_items(
                cose_algorithm(algo),
                entry_payload(algo, boot, history.keys, 2),
                history.signatures[2]@,
            ),
        ),
{
    reveal_with_fuel(chain_elements, 5);
    let e = |i: int| chain_element(algo, boot, history, i);
    assert(seq![DataItem::Elements(4)] + chain_elements(algo, boot, history, 4) =~= seq![
        DataItem::Elements(4),
    ] + e(0) + e(1) + e(2) + e(3));
}

/// Each entry names the key before it as the issuer: the UDS in the first entry, and in every
/// other the subject of the entry before.
pub proof fn law_entries_are_linked<K>(
    algo: CsrSigningAlgorithm,
    boot: DiceBootInfo,
    keys: Seq<StageKey<K>>,
    i: int,
)
    requires
        0 <= i < STAGE_COUNT,
    ensures
        has_field(
            entry_fields(algo, boot, keys, 0),
            LABEL_ISSUER,
            DataItem::Text(key_id(algo, keys[0])),
        ),
        has_field(
            entry_fields(algo, boot, keys, i),
            LABEL_SUBJECT,
            DataItem::Text(key_id(algo, keys[i + 1])),
        ),
        i + 1 < STAGE_COUNT ==> has_field(
            entry_fields(algo, boot, keys, i + 1),
            LABEL_ISSUER,
            DataItem::Text(key_id(algo, keys[i + 1])),
        ),
{
    let first = entry_fields(algo, boot, keys, 0);
    let entry = entry_fields(algo, boot, keys, i);
    let next = entry_fields(algo, boot, keys, i + 1);
    assert(first[0] == (LABEL_ISSUER as int, DataItem::Text(key_id(algo, keys[0]))));
    assert(entry[1] == (LABEL_SUBJECT as int, DataItem::Text(key_id(algo, keys[i + 1]))));
    assert(next[0] == (LABEL_ISSUER as int, DataItem::Text(key_id(algo, keys[i + 1]))));
}

/// Every entry certifies the key of its own stage, for signing certificates, and describes that
/// stage.
pub proof fn law_entries_certify_their_stage<K>(
    algo: CsrSigningAlgorithm,
    boot: DiceBootInfo,
    keys: Seq<StageKey<K>>,
    i: int,
)
    requires
        0 <= i < STAGE_COUNT,
    ensures
        has_field(
            entry_fields(algo, boot, keys, i),
            LABEL_SUBJECT_PUBLIC_KEY,
            DataItem::Bytes(encode(keys[i + 1].cose_key.items())),
        ),
        has_field(
            entry_fields(algo, boot, keys, i),
            LABEL_KEY_USAGE,
            DataItem::Bytes(seq![KEY_USAGE_CERT_SIGN]),
        ),
        has_field(
            entry_fields(algo, boot, keys, i),
            LABEL_CODE_HASH,
            DataItem::Bytes(stage_models(boot)[i].code_hash),
        ),
        has_field(
            entry_fields(algo, boot, keys, i),
            LABEL_CONFIG_DESC,
            DataItem::Bytes(config_descriptor(stage_models(boot)[i])),
        ),
{
    let entry = entry_fields(algo, boot, keys, i);
    let stage = stage_models(boot)[i];
    assert(entry[7] == (
        LABEL_SUBJECT_PUBLIC_KEY as int,
        DataItem::Bytes(encode(keys[i + 1].cose_key.items())),
    ));
    assert(entry[8] == (LABEL_KEY_USAGE as int, DataItem::Bytes(seq![KEY_USAGE_CERT_SIGN])));
    assert(entry[2] == (LABEL_CODE_HASH as int, DataItem::Bytes(stage.code_hash)));
    assert(entry[3] == (LABEL_CONFIG_DESC as int, DataItem::Bytes(config_descriptor(stage))));
}

/// In every entry, the configuration hash is the SHA-512 digest of the configuration descriptor.
pub proof fn law_config_hash_covers_the_descriptor<K>(
    algo: CsrSigningAlgorithm,
    boot: DiceBootInfo,
    keys: Seq<StageKey<K>>,
    i: int,
    descriptor: Seq<u8>,
)
    requires
        has_field(
            entry_fields(algo, boot, keys, i),
            LABEL_CONFIG_DESC,
            DataItem::Bytes(descriptor),
        ),
    ensures
        has_field(
            entry_fields(algo, boot, keys, i),
            LABEL_CONFIG_HASH,
            DataItem::Bytes(sha512_digest(descriptor)),
        ),
{
    let entry = entry_fields(algo, boot, keys, i);
    assert(entry[4] == (LABEL_CONFIG_HASH as int, DataItem::Bytes(sha512_digest(descriptor))));
}

/// Every entry reports the normal mode if the bootloader is locked, and the debug mode if it is
/// not, and these are told apart.
pub proof fn law_mode_tells_whether_the_device_is_locked<K>(
    algo: CsrSigningAlgorithm,
    boot: DiceBootInfo,
    keys: Seq<StageKey<K>>,
    i: int,
)
    ensures
        has_field(
            entry_fields(algo, boot, keys, i),
            LABEL_MODE,
            DataItem::Bytes(seq![MODE_NORMAL]),
        ) <==> boot.locked,
        has_field(
            entry_fields(algo, boot, keys, i),
            LABEL_MODE,
            DataItem::Bytes(seq![MODE_DEBUG]),
        ) <==> !boot.locked,
{
    let entry = entry_fields(algo, boot, keys, i);
    assert(entry[6] == (LABEL_MODE as int, DataItem::Bytes(seq![dice_mode(boot)])));
    assert(seq![MODE_NORMAL][0] != seq![MODE_DEBUG][0]);
}

/// An entry names the profile it follows if and only if the device runs Android 14 or later, when
/// profile names were introduced.
pub proof fn law_profile_name_is_given_since_android_14<K>(
    algo: CsrSigningAlgorithm,
    boot: DiceBootInfo,
    keys: Seq<StageKey<K>>,
    i: int,
)
    ensures
        (exists|item: DataItem|
            has_field(entry_fields(algo, boot, keys, i), LABEL_PROFILE_NAME, item))
            <==> boot.os_version >= 14,
        forall|name: Seq<char>|
            profile(boot.os_version) == Some(name) ==> #[trigger] has_field(
                entry_fields(algo, boot, keys, i),
                LABEL_PROFILE_NAME,
                DataItem::Text(name),
            ),
{
    let entry = entry_fields(algo, boot, keys, i);
    if boot.os_version >= 14 {
        let name = profile(boot.os_version)->0;
        assert(entry[9] == (LABEL_PROFILE_NAME as int, DataItem::Text(name)));
        assert(has_field(entry, LABEL_PROFILE_NAME, DataItem::Text(name)));
    }
}

/// No label occurs twice in the payload of an entry.
pub proof fn law_payload_labels_are_distinct<K>(
    algo: CsrSigningAlgorithm,
    boot: DiceBootInfo,
    keys: Seq<StageKey<K>>,
    i: int,
    m: int,
    n: int,
)
    requires
        0 <= m < n < entry_fields(algo, boot, keys, i).len(),
    ensures
        entry_fields(algo, boot, keys, i)[m].0 != entry_fields(algo, boot, keys, i)[n].0,
{
}

/// Every entry has the same authority, which depends on the verified boot key alone.
pub proof fn law_authority_is_the_verified_boot_key<K>(
    algo: CsrSigningAlgorithm,
    boot: DiceBootInfo,
    other: DiceBootInfo,
    keys: Seq<StageKey<K>>,
    i: int,
)
    requires
        boot.vb_key@ == other.vb_key@,
    ensures
        has_field(
            entry_fields(algo, boot, keys, i),
            LABEL_AUTHORITY_HASH,
            DataItem::Bytes(authority_hash(other)),
        ),
        authority_hash(boot).len() == DICE_HASH_LEN,
{
    let entry = entry_fields(algo, boot, keys, i);
    assert(entry[5] == (LABEL_AUTHORITY_HASH as int, DataItem::Bytes(authority_hash(boot))));
}

/// Every code hash fills the hash field. That of the AVB stage is the verified boot hash that the
/// attestation record also reports, followed by zeros.
pub proof fn law_code_hashes_fill_the_field(boot: DiceBootInfo, i: int)
    requires
        0 <= i < STAGE_COUNT,
    ensures
        stage_models(boot)[i].code_hash.len() == DICE_HASH_LEN,
        avb_stage(boot).code_hash.subrange(0, 32) == boot.vb_hash@,
        avb_stage(boot).code_hash.subrange(32, 64) == Seq::new(32, |j: int| 0u8),
{
    assert(avb_stage(boot).code_hash.subrange(0, 32) =~= boot.vb_hash@);
}

/// The keys of a chain are made for different contexts, which are the same on every device. What
/// this means for the keys, `Artifacts::law_keys_answer_requests_of_their_own` says.
pub proof fn law_keys_have_their_own_contexts(
    boot: DiceBootInfo,
    other: DiceBootInfo,
    i: int,
    j: int,
)
    requires
        0 <= i < j <= STAGE_COUNT,
    ensures
        key_context(boot, i) != key_context(boot, j),
        key_context(boot, i) == key_context(other, i),
        key_context(boot, j) == key_context(other, j),
{
    reveal_strlit("UDS Key Seed");
    reveal_strlit("Device Key Seed");
    reveal_strlit("CDI Key Seed: ");
    reveal_strlit("ABL");
    reveal_strlit("AVB");
    let abl = "CDI Key Seed: "@ + "ABL"@;
    let avb = "CDI Key Seed: "@ + "AVB"@;
    is_ascii_chars_encode_utf8("UDS Key Seed"@);
    is_ascii_chars_encode_utf8("Device Key Seed"@);
    is_ascii_chars_encode_utf8(abl);
    is_ascii_chars_encode_utf8(avb);
    assert(encode_utf8(abl)[15] != encode_utf8(avb)[15]);
}

} // verus!
