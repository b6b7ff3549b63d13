//! Emulated device support for `IRemotelyProvisionedComponent`.

use ciborium::value::Value;
use vstd::prelude::*;
use vstd::utf8::encode_utf8;

use crate::cbor::{big_endian, element_items, encode, is_plain, serialize_cbor, DataItem, FieldMap};
use crate::cose::{sig_structure, sign1_tbs_data, sign1_to_cbor_value, CoseAlgorithm, CoseKey};
use crate::digest::{sha256_digest, MAX_DIGEST_INPUT, MAX_HKDF_INPUT};
use crate::error::{CborError, Error, RpcErrorCode};
use crate::keymint::chain::{
    chain_element, chain_elements, config_fields, cose_algorithm, curve_for, dice_cert_chain,
    dice_mode, digest_for, entry_payload, entry_signed_data, is_same_boot, key_context, key_id,
    law_keys_have_their_own_contexts, lemma_chain_elements_equal, lemma_chain_elements_grow,
    lemma_config_descriptor_len, lemma_stage_names, payload, payload_fields, profile, raw_key,
    stage_models, ChainHistory, StageModel, KEY_USAGE_CERT_SIGN, LABEL_AUTHORITY_HASH,
    LABEL_CODE_HASH, LABEL_COMPONENT_NAME, LABEL_COMPONENT_VERSION, LABEL_CONFIG_DESC,
    LABEL_CONFIG_HASH, LABEL_ISSUER, LABEL_KEY_USAGE, LABEL_MODE, LABEL_PROFILE_NAME,
    LABEL_SECURITY_VERSION, LABEL_SUBJECT, LABEL_SUBJECT_PUBLIC_KEY, MODE_DEBUG, MODE_NORMAL,
    STAGE_COUNT,
};
use crate::keymint::dice::{be_bytes, dice_id, measurement, pad_measurement, sha512};
use crate::keymint::laws::{four_bytes, lemma_four_bytes};

verus! {

/// Algorithm by which certificate requests are signed.
#[derive(Clone, Copy, Debug, PartialEq, Eq, Structural)]
pub enum CsrSigningAlgorithm {
    /// ECDSA on P-256 with SHA-256.
    ES256,
    /// ECDSA on P-384 with SHA-384.
    ES384,
    /// EdDSA on Ed25519.
    EdDSA,
}

/// Elliptic curve.
#[derive(Clone, Copy, Debug, PartialEq, Eq, Structural)]
pub enum EcCurve {
    /// NIST P-256.
    P256,
    /// NIST P-384.
    P384,
    /// Curve 25519.
    Curve25519,
}

/// Elliptic curve of NIST.
#[derive(Clone, Copy, Debug, PartialEq, Eq, Structural)]
pub enum NistCurve {
    /// P-256.
    P256,
    /// P-384.
    P384,
}

/// Digest that is applied to data before it is signed.
#[derive(Clone, Copy, Debug, PartialEq, Eq, Structural)]
pub enum Digest {
    /// The data is signed as it stands.
    NoDigest,
    /// SHA-256.
    Sha256,
    /// SHA-384.
    Sha384,
}

/// Whether a request is made in test mode.
#[derive(Clone, Copy, Debug, PartialEq, Eq, Structural)]
pub struct TestMode(pub bool);

/// Boot state that the DICE chain measures. The values are the ones the device also reports in
/// the attestation `RootOfTrust`, so the DICE chain and the attestation record agree with each
/// other.
#[derive(Clone, Debug)]
pub struct DiceBootInfo {
    /// Verified boot key, as reported in `RootOfTrust.verifiedBootKey`.
    pub vb_key: [u8; 32],
    /// Verified boot hash (vbmeta digest), as reported in `RootOfTrust.verifiedBootHash`.
    pub vb_hash: [u8; 32],
    /// Boot patch level, in `YYYYMMDD` form.
    pub boot_patchlevel: u32,
    /// OS patch level, in `YYYYMM` form.
    pub os_patchlevel: u32,
    /// Android major version, e.g. 16.
    pub os_version: u32,
    /// Whether the bootloader is locked and verified boot is in the `Verified` state.
    pub locked: bool,
}

impl Default for DiceBootInfo {
    fn default() -> (r: Self)
        ensures
            r.vb_key@ == Seq::new(32, |i: int| 0u8),
            r.vb_hash@ == Seq::new(32, |i: int| 0u8),
            r.boot_patchlevel == 0,
            r.os_patchlevel == 0,
            r.os_version == 0,
            !r.locked,
    {
        DiceBootInfo {
            vb_key: [0u8; 32],
            vb_hash: [0u8; 32],
            boot_patchlevel: 0,
            os_patchlevel: 0,
            os_version: 0,
            locked: false,
        }
    }
}

/// A boot stage measured into the DICE chain. Each stage contributes one `DiceChainEntry`; the
/// last stage holds `CDI_Leaf`, the key that signs certificate requests.
#[derive(Debug)]
pub struct DiceStage {
    /// Component name, and the key derivation context for the stage key.
    pub name: &'static str,
    /// Component version.
    pub version: u64,
    /// Security version, which is machine comparable and monotonically increasing.
    pub security_version: u64,
    /// The stage's code hash, in the 64-byte field that the Open Profile for DICE uses.
    pub code_hash: Vec<u8>,
}

impl View for DiceStage {
    type V = StageModel;

    open spec fn view(&self) -> StageModel {
        StageModel {
            name: self.name@,
            version: self.version,
            security_version: self.security_version,
            code_hash: self.code_hash@,
        }
    }
}

/// The key of the UDS or of a boot stage.
#[derive(Debug)]
pub struct StageKey<K> {
    /// The private key, which is only ever handed back to whoever generated it.
    pub private_key: K,
    /// The public key as a `COSE_Key`.
    pub cose_key: CoseKey,
    /// The public key as such: the raw key of Ed25519, or the SEC-1 encoding of a NIST key.
    pub public_key: Vec<u8>,
}

/// How the key of a stage is to be made.
#[derive(Debug)]
pub enum KeyRequest {
    /// Import the Ed25519 key with this secret.
    ImportEd25519(Vec<u8>),
    /// Generate a fresh key on this curve. The context tells what the key is for: every key of a
    /// chain has its own.
    GenerateNist(NistCurve, Vec<u8>),
}

/// What came of a `KeyRequest`.
#[derive(Debug)]
pub enum KeyMaterial<K> {
    /// An elliptic curve key.
    Ec(StageKey<K>),
    /// A key of another kind.
    Other,
}

/// Data that is to be signed, and how.
#[derive(Debug)]
pub struct SignRequest {
    /// Digest that is applied to the data.
    pub digest: Digest,
    /// Curve of the key, by which the signature is brought into the form that COSE uses.
    pub curve: EcCurve,
    /// The data.
    pub data: Vec<u8>,
}

/// `r` is what becomes of the key material `material`: only an elliptic curve key will do.
pub open spec fn is_ec_key<K>(
    material: Result<KeyMaterial<K>, Error>,
    r: Result<StageKey<K>, Error>,
) -> bool {
    match material {
        Ok(KeyMaterial::Ec(key)) => r == Ok::<StageKey<K>, Error>(key),
        Ok(KeyMaterial::Other) => r matches Err(e) && e.is_rpc(
            RpcErrorCode::Failed,
            "expected the Ec variant of KeyMaterial for the cdi leaf key."@,
        ),
        Err(e) => r == Err::<StageKey<K>, Error>(e),
    }
}

/// Take the elliptic curve key out of what came of a key request.
pub fn ec_key<K>(material: Result<KeyMaterial<K>, Error>) -> (r: Result<StageKey<K>, Error>)
    ensures
        is_ec_key(material, r),
        r is Ok <==> material is Ok && material->Ok_0 is Ec,
        r is Ok ==> r->Ok_0 == material->Ok_0->Ec_0,
        material is Err ==> r->Err_0 == material->Err_0,
{
    match material {
        Ok(KeyMaterial::Ec(key)) => Ok(key),
        Ok(KeyMaterial::Other) => Err(
            Error::Rpc(
                RpcErrorCode::Failed,
                "expected the Ec variant of KeyMaterial for the cdi leaf key.".to_owned(),
            ),
        ),
        Err(e) => Err(e),
    }
}

/// No public key that `generate` gives is too long to derive a certificate ID from.
pub open spec fn gives_short_keys<K, G: Fn(KeyRequest) -> Result<KeyMaterial<K>, Error>>(
    generate: G,
) -> bool {
    forall|q: KeyRequest, key: StageKey<K>| #[trigger]
        generate.ensures((q,), Ok(KeyMaterial::Ec(key))) ==> key.public_key@.len()
            <= MAX_HKDF_INPUT
}

/// `generate` always gives a well-formed elliptic curve key.
pub open spec fn always_generates<K, G: Fn(KeyRequest) -> Result<KeyMaterial<K>, Error>>(
    generate: G,
) -> bool {
    forall|q: KeyRequest, r: Result<KeyMaterial<K>, Error>| #[trigger]
        generate.ensures((q,), r) ==> r is Ok && r->Ok_0 is Ec
            && r->Ok_0->Ec_0.cose_key.has_distinct_labels()
}

/// `sign` always gives a signature.
pub open spec fn always_signs<K, S: Fn(&K, SignRequest) -> Result<Vec<u8>, Error>>(
    sign: S,
) -> bool {
    forall|k: &K, q: SignRequest, r: Result<Vec<u8>, Error>| #[trigger]
        sign.ensures((k, q), r) ==> r is Ok
}

/// Trait to encapsulate deterministic derivation of secret data.
pub trait DeriveBytes {
    /// Derive `output_len` bytes of data from `context`, deterministically.
    fn derive_bytes(&self, context: &[u8], output_len: usize) -> Result<Vec<u8>, Error>;
}

/// `derive` may answer `r` when it is asked for `output_len` bytes from `context`.
pub open spec fn can_derive<T: DeriveBytes>(
    derive: T,
    context: Seq<u8>,
    output_len: usize,
    r: Result<Vec<u8>, Error>,
) -> bool {
    exists|c: &[u8]|
        c@ == context && #[trigger] call_ensures(T::derive_bytes, (&derive, c, output_len), r)
}

/// `d` and `e` derive the same secret from the same context, if they derive one at all.
pub open spec fn derive_alike<T: DeriveBytes, U: DeriveBytes>(d: T, e: U) -> bool {
    forall|context: Seq<u8>, a: Vec<u8>, b: Vec<u8>|
        #![trigger can_derive(d, context, 32, Ok(a)), can_derive(e, context, 32, Ok(b))]
        can_derive(d, context, 32, Ok(a)) && can_derive(e, context, 32, Ok(b)) ==> a@ == b@
}

/// Both are the same key.
pub open spec fn is_same_key<K>(a: StageKey<K>, b: StageKey<K>) -> bool {
    &&& a.private_key == b.private_key
    &&& a.public_key@ == b.public_key@
    &&& a.cose_key.items() == b.cose_key.items()
}

/// `g` and `h` import the same key from the same secret.
pub open spec fn import_alike<
    K,
    G: Fn(KeyRequest) -> Result<KeyMaterial<K>, Error>,
    H: Fn(KeyRequest) -> Result<KeyMaterial<K>, Error>,
>(g: G, h: H) -> bool {
    forall|a: Vec<u8>, x: StageKey<K>, b: Vec<u8>, y: StageKey<K>|
        {
            &&& #[trigger] g.ensures((KeyRequest::ImportEd25519(a),), Ok(KeyMaterial::Ec(x)))
            &&& #[trigger] h.ensures((KeyRequest::ImportEd25519(b),), Ok(KeyMaterial::Ec(y)))
            &&& a@ == b@
        } ==> is_same_key(x, y)
}

/// `s` and `t` give the same signature of the same data.
pub open spec fn sign_alike<
    K,
    S: Fn(&K, SignRequest) -> Result<Vec<u8>, Error>,
    U: Fn(&K, SignRequest) -> Result<Vec<u8>, Error>,
>(s: S, t: U) -> bool {
    forall|k: &K, p: SignRequest, a: Vec<u8>, q: SignRequest, b: Vec<u8>|
        {
            &&& #[trigger] s.ensures((k, p), Ok(a))
            &&& #[trigger] t.ensures((k, q), Ok(b))
            &&& p.digest == q.digest
            &&& p.curve == q.curve
            &&& p.data@ == q.data@
        } ==> a@ == b@
}

/// The public part of the DICE artifacts.
#[derive(Debug)]
pub struct PubDiceArtifacts {
    /// The CBOR-encoded `DiceCertChain`.
    pub dice_cert_chain: Vec<u8>,
    /// The CBOR-encoded `UdsCerts`.
    pub uds_certs: Vec<u8>,
}

/// The DICE artifacts, with the algorithm of their keys.
#[derive(Debug)]
pub struct DiceInfo {
    /// Public artifacts.
    pub pub_dice_artifacts: PubDiceArtifacts,
    /// Algorithm by which certificate requests are signed.
    pub signing_algorithm: CsrSigningAlgorithm,
}

/// The contents of `DiceInfo`.
pub struct DiceInfoModel {
    /// The CBOR-encoded `DiceCertChain`.
    pub dice_cert_chain: Seq<u8>,
    /// The CBOR-encoded `UdsCerts`.
    pub uds_certs: Seq<u8>,
    /// Algorithm by which certificate requests are signed.
    pub signing_algorithm: CsrSigningAlgorithm,
}

impl View for DiceInfo {
    type V = DiceInfoModel;

    open spec fn view(&self) -> DiceInfoModel {
        DiceInfoModel {
            dice_cert_chain: self.pub_dice_artifacts.dice_cert_chain@,
            uds_certs: self.pub_dice_artifacts.uds_certs@,
            signing_algorithm: self.signing_algorithm,
        }
    }
}

impl Clone for DiceInfo {
    fn clone(&self) -> (r: Self)
        ensures
            r@ == self@,
    {
        let dice_cert_chain = self.pub_dice_artifacts.dice_cert_chain.clone();
        let uds_certs = self.pub_dice_artifacts.uds_certs.clone();
        assert(dice_cert_chain@ =~= self.pub_dice_artifacts.dice_cert_chain@);
        assert(uds_certs@ =~= self.pub_dice_artifacts.uds_certs@);
        DiceInfo {
            pub_dice_artifacts: PubDiceArtifacts { dice_cert_chain, uds_certs },
            signing_algorithm: self.signing_algorithm,
        }
    }
}

/// The key that comes of `q` is one for `algo`.
pub open spec fn is_request_for(algo: CsrSigningAlgorithm, q: KeyRequest) -> bool {
    match q {
        KeyRequest::ImportEd25519(_) => algo == CsrSigningAlgorithm::EdDSA,
        KeyRequest::GenerateNist(NistCurve::P256, _) => algo == CsrSigningAlgorithm::ES256,
        KeyRequest::GenerateNist(NistCurve::P384, _) => algo == CsrSigningAlgorithm::ES384,
    }
}

/// The requests that `generate` may answer with a key, each with such a key.
pub open spec fn keys_from<K, G: Fn(KeyRequest) -> Result<KeyMaterial<K>, Error>>(
    generate: G,
) -> spec_fn(KeyRequest, StageKey<K>) -> bool {
    |q: KeyRequest, k: StageKey<K>| generate.ensures((q,), Ok(KeyMaterial::Ec(k)))
}

/// `chain` is a complete chain for the boot state. The key that its last entry certifies is one of
/// the keys of `origin`, was given for a request for `algo`, and has the private key `key`.
pub open spec fn is_chain_to<K>(
    algo: CsrSigningAlgorithm,
    boot: DiceBootInfo,
    origin: spec_fn(KeyRequest, StageKey<K>) -> bool,
    chain: Seq<u8>,
    key: K,
) -> bool {
    exists|history: ChainHistory<K>, q: KeyRequest|
        {
            &&& chain == #[trigger] dice_cert_chain(algo, boot, history)
            &&& history.keys.len() == 1 + STAGE_COUNT
            &&& history.signatures.len() == STAGE_COUNT
            &&& #[trigger] origin(q, history.keys.last())
            &&& is_request_for(algo, q)
            &&& key == history.keys.last().private_key
        }
}

/// What is answered to a request that needs the DICE artifacts before there are any.
fn not_initialized() -> (r: Error)
    ensures
        r.is_rpc(RpcErrorCode::Failed, "DICE artifacts are not initialized."@),
{
    Error::Rpc(RpcErrorCode::Failed, "DICE artifacts are not initialized.".to_owned())
}

/// Put `part` behind `data`.
fn append(data: &mut Vec<u8>, part: &[u8])
    ensures
        final(data)@ == old(data)@ + part@,
{
    data.extend_from_slice(part);
    assert(data@ =~= old(data)@ + part@);
}

/// A copy of `data`.
fn copied(data: &[u8]) -> (r: Vec<u8>)
    ensures
        r@ == data@,
{
    let mut copy: Vec<u8> = Vec::new();
    append(&mut copy, data);
    assert(copy@ =~= data@);
    copy
}

/// Common emulated implementation of RPC artifact retrieval. `K` is the private keys' type: they
/// are only ever handed back to the cryptography they came from.
#[verifier::reject_recursive_types(K)]
pub struct Artifacts<T: DeriveBytes, K> {
    derive: T,
    sign_algo: CsrSigningAlgorithm,
    boot: DiceBootInfo,
    // The DICE information once it is populated, with the private key of `CDI_Leaf` and where that
    // key came from.
    dice: Option<(DiceInfo, K, Ghost<spec_fn(KeyRequest, StageKey<K>) -> bool>)>,
}

impl<T: DeriveBytes, K> Artifacts<T, K> {
    /// What secrets are derived by.
    pub closed spec fn derivation(&self) -> T {
        self.derive
    }

    /// The signing algorithm.
    pub closed spec fn algo(&self) -> CsrSigningAlgorithm {
        self.sign_algo
    }

    /// The boot state that is measured.
    pub closed spec fn boot_info(&self) -> DiceBootInfo {
        self.boot
    }

    /// The DICE information, once it is populated.
    pub closed spec fn info(&self) -> Option<DiceInfoModel> {
        match self.dice {
            Some((info, _, _)) => Some(info@),
            None => None,
        }
    }

    /// The private key that signs certificate requests, once it is populated.
    pub closed spec fn signing_key(&self) -> Option<K> {
        match self.dice {
            Some((_, key, _)) => Some(key),
            None => None,
        }
    }

    /// Where the keys of the chain came from, once it is populated.
    pub closed spec fn origin(&self) -> spec_fn(KeyRequest, StageKey<K>) -> bool {
        match self.dice {
            Some((_, _, origin)) => origin@,
            None => |q: KeyRequest, k: StageKey<K>| false,
        }
    }

    /// The DICE information and the signing key are populated together. Once populated, the
    /// information is for the signing algorithm and holds a chain for the boot state, and the
    /// signing key is that of the chain's last entry and matches the signing algorithm.
    pub open spec fn wf(&self) -> bool {
        match (self.info(), self.signing_key()) {
            (None, None) => true,
            (Some(info), Some(key)) => {
                &&& info.signing_algorithm == self.algo()
                &&& info.uds_certs == encode(seq![DataItem::Pairs(0)])
                &&& is_chain_to(
                    self.algo(),
                    self.boot_info(),
                    self.origin(),
                    info.dice_cert_chain,
                    key,
                )
            },
            _ => false,
        }
    }

    /// Artifacts are well-formed in every state.
    #[verifier::type_invariant]
    spec fn inv(self) -> bool {
        self.wf()
    }

    /// Constructor.
    pub fn new(derive: T, sign_algo: CsrSigningAlgorithm, boot: DiceBootInfo) -> (r: Self)
        ensures
            r.derivation() == derive,
            r.algo() == sign_algo,
            r.boot_info() == boot,
            r.info() is None,
            r.signing_key() is None,
            r.wf(),
    {
        Artifacts { derive, sign_algo, boot, dice: None }
    }

    /// Derive secret data from the hardware-backed key.
    pub fn derive_bytes_from_hbk(&self, context: &[u8], output_len: usize) -> (r: Result<
        Vec<u8>,
        Error,
    >)
        ensures
            can_derive(self.derivation(), context@, output_len, r),
            call_ensures(T::derive_bytes, (&self.derivation(), context, output_len), r),
    {
        self.derive.derive_bytes(context, output_len)
    }

    /// Indicate the curve used in signing.
    pub fn signing_curve(&self) -> (r: EcCurve)
        ensures
            r == curve_for(self.algo()),
            r is P256 <==> self.algo() is ES256,
            r is P384 <==> self.algo() is ES384,
            r is Curve25519 <==> self.algo() is EdDSA,
    {
        match self.sign_algo {
            CsrSigningAlgorithm::ES256 => EcCurve::P256,
            CsrSigningAlgorithm::ES384 => EcCurve::P384,
            CsrSigningAlgorithm::EdDSA => EcCurve::Curve25519,
        }
    }

    /// Indicate the digest used in signing.
    pub fn signing_digest(&self) -> (r: Digest)
        ensures
            r == digest_for(self.algo()),
            r is Sha256 <==> self.algo() is ES256,
            r is Sha384 <==> self.algo() is ES384,
            r is NoDigest <==> self.algo() is EdDSA,
    {
        match self.sign_algo {
            CsrSigningAlgorithm::ES256 => Digest::Sha256,
            CsrSigningAlgorithm::ES384 => Digest::Sha384,
            CsrSigningAlgorithm::EdDSA => Digest::NoDigest,
        }
    }

    /// Indicate the COSE algorithm value associated with signing.
    pub fn signing_cose_algo(&self) -> (r: CoseAlgorithm)
        ensures
            r == cose_algorithm(self.algo()),
            r is ES256 <==> self.algo() is ES256,
            r is ES384 <==> self.algo() is ES384,
            r is EdDSA <==> self.algo() is EdDSA,
    {
        match self.sign_algo {
            CsrSigningAlgorithm::ES256 => CoseAlgorithm::ES256,
            CsrSigningAlgorithm::ES384 => CoseAlgorithm::ES384,
            CsrSigningAlgorithm::EdDSA => CoseAlgorithm::EdDSA,
        }
    }

    /// Indicate the version of the Android Profile for DICE that the chain follows. Profile names
    /// were introduced with the profile that aligns with Android 14.
    pub fn profile_name(&self) -> (r: Option<&'static str>)
        ensures
            match r {
                Some(name) => profile(self.boot_info().os_version) == Some(name@),
                None => profile(self.boot_info().os_version) is None,
            },
            r is None <==> self.boot_info().os_version < 14,
            self.boot_info().os_version == 14 ==> r->0@ == "android.14"@,
            self.boot_info().os_version == 15 ==> r->0@ == "android.15"@,
            self.boot_info().os_version >= 16 ==> r->0@ == "android.16"@,
    {
        match self.boot.os_version {
            0..=13 => None,
            14 => Some("android.14"),
            15 => Some("android.15"),
            _ => Some("android.16"),
        }
    }

    /// Indicate the DICE mode of the boot stages.
    pub fn mode(&self) -> (r: u8)
        ensures
            r == dice_mode(self.boot_info()),
            self.boot_info().locked ==> r == 1,
            !self.boot_info().locked ==> r == 2,
    {
        if self.boot.locked {
            MODE_NORMAL
        } else {
            MODE_DEBUG
        }
    }

    /// Describe the boot stages that the DICE chain measures, from the stage that the bootloader
    /// runs in, down to the KeyMint stage that owns `CDI_Leaf`. The stage names follow the ones
    /// Android boot stages use.
    pub fn boot_stages(&self) -> (r: Vec<DiceStage>)
        ensures
            r@.len() == stage_models(self.boot_info()).len(),
            forall|i: int|
                0 <= i < r@.len() ==> (#[trigger] r@[i])@ == stage_models(self.boot_info())[i],
            forall|i: int, j: int|
                0 <= i < r@.len() && 32 <= j < 64 ==> #[trigger] r@[i].code_hash@[j] == 0,
            // What each stage reports of the boot state.
            r@.len() == 3,
            r@[0].name@ == "ABL"@,
            r@[0].version == self.boot_info().boot_patchlevel,
            r@[0].security_version == self.boot_info().boot_patchlevel,
            r@[0].code_hash@.len() == 64,
            r@[0].code_hash@.subrange(0, 32) == sha256_digest(
                encode_utf8("ABL"@) + self.boot_info().vb_key@ + four_bytes(
                    self.boot_info().boot_patchlevel,
                ),
            ),
            r@[1].name@ == "AVB"@,
            r@[1].version == self.boot_info().os_version,
            r@[1].security_version == self.boot_info().os_patchlevel,
            r@[1].code_hash@.len() == 64,
            r@[1].code_hash@.subrange(0, 32) == self.boot_info().vb_hash@,
            r@[2].name@ == "KeyMint"@,
            r@[2].version == self.boot_info().os_version,
            r@[2].security_version == self.boot_info().os_patchlevel,
            r@[2].code_hash@.len() == 64,
            r@[2].code_hash@.subrange(0, 32) == sha256_digest(
                encode_utf8("KeyMint"@) + self.boot_info().vb_key@ + self.boot_info().vb_hash@
                    + four_bytes(self.boot_info().os_patchlevel),
            ),
    {
        let boot = &self.boot;
        let boot_patchlevel: u64 = boot.boot_patchlevel as u64;
        let os_patchlevel: u64 = boot.os_patchlevel as u64;
        let os_version: u64 = boot.os_version as u64;
        let mut abl: Vec<u8> = Vec::new();
        append(&mut abl, "ABL".as_bytes());
        append(&mut abl, boot.vb_key.as_slice());
        append(&mut abl, be_bytes(boot.boot_patchlevel).as_slice());
        let mut keymint: Vec<u8> = Vec::new();
        append(&mut keymint, "KeyMint".as_bytes());
        append(&mut keymint, boot.vb_key.as_slice());
        append(&mut keymint, boot.vb_hash.as_slice());
        append(&mut keymint, be_bytes(boot.os_patchlevel).as_slice());
        proof {
            reveal_strlit("ABL");
            reveal_strlit("KeyMint");
            vstd::utf8::is_ascii_chars_encode_utf8("ABL"@);
            vstd::utf8::is_ascii_chars_encode_utf8("KeyMint"@);
            reveal_with_fuel(big_endian, 5);
            lemma_four_bytes(boot.boot_patchlevel);
            lemma_four_bytes(boot.os_patchlevel);
            assert(abl@ =~= encode_utf8("ABL"@) + boot.vb_key@ + big_endian(
                boot.boot_patchlevel as nat,
                4,
            ));
            assert(keymint@ =~= encode_utf8("KeyMint"@) + boot.vb_key@ + boot.vb_hash@
                + big_endian(boot.os_patchlevel as nat, 4));
        }
        vec![
            // The Android bootloader, measured by the stage that owns the UDS and versioned by
            // the boot patch level.
            DiceStage {
                name: "ABL",
                version: boot_patchlevel,
                security_version: boot_patchlevel,
                code_hash: measurement(abl.as_slice()),
            },
            // Android Verified Boot, whose measurement of the OS images is the verified boot hash
            // that the attestation `RootOfTrust` also reports.
            DiceStage {
                name: "AVB",
                version: os_version,
                security_version: os_patchlevel,
                code_hash: pad_measurement(boot.vb_hash.as_slice()),
            },
            // The KeyMint stage holds `CDI_Leaf`, the key that signs certificate requests.
            DiceStage {
                name: "KeyMint",
                version: os_version,
                security_version: os_patchlevel,
                code_hash: measurement(keymint.as_slice()),
            },
        ]
    }

    /// Build the `DiceChainEntryPayload` for `stage`, certified by the holder of `issuer`. There is
    /// none for a key with two parameters of the same label.
    pub fn entry_payload(
        &self,
        issuer: &str,
        subject: &str,
        stage: &DiceStage,
        subject_key: &CoseKey,
    ) -> (r: Result<Vec<u8>, Error>)
        requires
            encode_utf8(stage.name@).len() + 64 <= MAX_DIGEST_INPUT,
        ensures
            r is Ok <==> subject_key.has_distinct_labels(),
            r matches Ok(data) ==> data@ == payload(
                self.boot_info(),
                issuer@,
                subject@,
                stage@,
                *subject_key,
            ),
            r matches Err(e) ==> e == Error::Cbor(CborError::DuplicateMapKey),
    {
        let subject_key_cbor = subject_key.to_cbor_value()?;
        let subject_key_data = serialize_cbor(&subject_key_cbor)?;

        // Construct `ConfigurationDescriptor`, which the configuration hash covers.
        let config_desc = FieldMap::new().text(LABEL_COMPONENT_NAME, stage.name).uint(
            LABEL_COMPONENT_VERSION,
            stage.version,
        ).uint(LABEL_SECURITY_VERSION, stage.security_version);
        assert(config_desc@ =~= config_fields(stage@));
        let config_desc_data = config_desc.serialize()?;
        proof {
            lemma_config_descriptor_len(stage@);
        }
        let config_hash = sha512(config_desc_data.as_slice());

        // The authority for every stage is the verified boot key, which is the key that the
        // attestation `RootOfTrust` reports as having signed the boot chain.
        let mut authority: Vec<u8> = Vec::new();
        append(&mut authority, "authority".as_bytes());
        append(&mut authority, self.boot.vb_key.as_slice());
        proof {
            reveal_strlit("authority");
            vstd::utf8::is_ascii_chars_encode_utf8("authority"@);
            assert(authority@ =~= encode_utf8("authority"@) + self.boot.vb_key@);
        }
        let authority_hash = measurement(authority.as_slice());
        let code_hash = stage.code_hash.clone();
        assert(code_hash@ =~= stage.code_hash@);
        let mode: Vec<u8> = vec![self.mode()];
        let key_usage: Vec<u8> = vec![KEY_USAGE_CERT_SIGN];
        assert(mode@ =~= seq![dice_mode(self.boot_info())]);
        assert(key_usage@ =~= seq![KEY_USAGE_CERT_SIGN]);

        let payload = FieldMap::new().text(LABEL_ISSUER, issuer).text(LABEL_SUBJECT, subject).bytes(
            LABEL_CODE_HASH,
            code_hash,
        ).bytes(LABEL_CONFIG_DESC, config_desc_data).bytes(LABEL_CONFIG_HASH, config_hash).bytes(
            LABEL_AUTHORITY_HASH,
            authority_hash,
        ).bytes(LABEL_MODE, mode).bytes(LABEL_SUBJECT_PUBLIC_KEY, subject_key_data).bytes(
            LABEL_KEY_USAGE,
            key_usage,
        );
        let payload = match self.profile_name() {
            Some(name) => payload.text(LABEL_PROFILE_NAME, name),
            None => payload,
        };
        assert(payload@ =~= payload_fields(
            self.boot_info(),
            issuer@,
            subject@,
            stage@,
            *subject_key,
        ));
        payload.serialize()
    }

    /// `r` says how the key for `context` is to be made. Only an Ed25519 key is derived; a NIST key
    /// is generated afresh, for that context.
    pub open spec fn is_key_request(&self, context: Seq<u8>, r: Result<KeyRequest, Error>) -> bool {
        match self.algo() {
            CsrSigningAlgorithm::EdDSA => match r {
                Ok(KeyRequest::ImportEd25519(secret)) => can_derive(
                    self.derivation(),
                    context,
                    32,
                    Ok(secret),
                ),
                Ok(KeyRequest::GenerateNist(_, _)) => false,
                Err(e) => can_derive(self.derivation(), context, 32, Err(e)),
            },
            CsrSigningAlgorithm::ES256 => r matches Ok(KeyRequest::GenerateNist(curve, c)) && curve
                == NistCurve::P256 && c@ == context,
            CsrSigningAlgorithm::ES384 => r matches Ok(KeyRequest::GenerateNist(curve, c)) && curve
                == NistCurve::P384 && c@ == context,
        }
    }

    /// Say how the key for `context` is to be made.
    pub fn key_request(&self, context: &[u8]) -> (r: Result<KeyRequest, Error>)
        ensures
            self.is_key_request(context@, r),
            self.algo() is EdDSA ==> match r {
                Ok(KeyRequest::ImportEd25519(secret)) => call_ensures(
                    T::derive_bytes,
                    (&self.derivation(), context, 32usize),
                    Ok::<Vec<u8>, Error>(secret),
                ),
                Ok(KeyRequest::GenerateNist(_, _)) => false,
                Err(e) => call_ensures(
                    T::derive_bytes,
                    (&self.derivation(), context, 32usize),
                    Err::<Vec<u8>, Error>(e),
                ),
            },
            self.algo() is ES256 ==> r is Ok && r->Ok_0 is GenerateNist && r->Ok_0->GenerateNist_0
                is P256 && r->Ok_0->GenerateNist_1@ == context@,
            self.algo() is ES384 ==> r is Ok && r->Ok_0 is GenerateNist && r->Ok_0->GenerateNist_0
                is P384 && r->Ok_0->GenerateNist_1@ == context@,
    {
        match self.sign_algo {
            CsrSigningAlgorithm::EdDSA => match self.derive.derive_bytes(context, 32) {
                Ok(secret) => Ok(KeyRequest::ImportEd25519(secret)),
                Err(e) => Err(e),
            },
            CsrSigningAlgorithm::ES256 => Ok(
                KeyRequest::GenerateNist(NistCurve::P256, copied(context)),
            ),
            CsrSigningAlgorithm::ES384 => Ok(
                KeyRequest::GenerateNist(NistCurve::P384, copied(context)),
            ),
        }
    }

    /// `r` is what comes of the key for `context`, where `generate` answers the request for it.
    pub open spec fn key_outcome<G: Fn(KeyRequest) -> Result<KeyMaterial<K>, Error>>(
        &self,
        generate: G,
        context: Seq<u8>,
        r: Result<StageKey<K>, Error>,
    ) -> bool {
        ||| r is Err && self.is_key_request(context, Err(r->Err_0))
        ||| exists|q: KeyRequest, material: Result<KeyMaterial<K>, Error>|
            {
                &&& self.is_key_request(context, Ok(q))
                &&& #[trigger] generate.ensures((q,), material)
                &&& is_ec_key(material, r)
            }
    }

    /// Generate the key pair for a boot stage, with the private key that certifies the next stage
    /// in the chain.
    pub fn stage_key<G: Fn(KeyRequest) -> Result<KeyMaterial<K>, Error>>(
        &self,
        generate: &G,
        context: &[u8],
    ) -> (r: Result<StageKey<K>, Error>)
        requires
            forall|q: KeyRequest| generate.requires((q,)),
        ensures
            self.key_outcome(*generate, context@, r),
    {
        let request = match self.key_request(context) {
            Ok(request) => request,
            Err(e) => {
                return Err(e);
            },
        };
        let material = generate(request);
        ec_key(material)
    }

    /// Return the raw public key material that a DICE certificate ID is derived from: the
    /// coordinates of a NIST key, or the raw public key of an Ed25519 key.
    pub fn raw_public_key(&self, pub_key: &[u8]) -> (r: Vec<u8>)
        ensures
            r@ == raw_key(self.algo(), pub_key@),
            self.algo() is EdDSA || pub_key@.len() == 0 || pub_key@[0] != 4 ==> r@ == pub_key@,
            !(self.algo() is EdDSA) && pub_key@.len() > 0 && pub_key@[0] == 4 ==> seq![4u8] + r@
                == pub_key@,
    {
        // NIST public keys are SEC-1 uncompressed points; drop the leading 0x04 tag so that only
        // the coordinates are hashed.
        let start: usize = match self.sign_algo {
            CsrSigningAlgorithm::EdDSA => 0,
            _ => if pub_key.len() > 0 && pub_key[0] == 0x04 {
                1
            } else {
                0
            },
        };
        let mut raw: Vec<u8> = Vec::new();
        append(&mut raw, vstd::slice::slice_subrange(pub_key, start, pub_key.len()));
        assert(raw@ =~= raw_key(self.algo(), pub_key@));
        raw
    }

    /// `r` is what comes of signing `data` by `sign` with `key`.
    pub open spec fn sign_outcome<S: Fn(&K, SignRequest) -> Result<Vec<u8>, Error>>(
        &self,
        sign: S,
        key: K,
        data: Seq<u8>,
        r: Result<Vec<u8>, Error>,
    ) -> bool {
        exists|q: SignRequest|
            q.digest == digest_for(self.algo()) && q.curve == curve_for(self.algo()) && q.data@
                == data && #[trigger] sign.ensures((&key, q), r)
    }

    /// Have `data` signed with `key`, in the way that the signing algorithm asks for.
    fn sign_with<S: Fn(&K, SignRequest) -> Result<Vec<u8>, Error>>(
        &self,
        sign: &S,
        key: &K,
        data: Vec<u8>,
    ) -> (r: Result<Vec<u8>, Error>)
        requires
            forall|k: &K, q: SignRequest| sign.requires((k, q)),
        ensures
            self.sign_outcome(*sign, *key, data@, r),
    {
        sign(key, SignRequest { digest: self.signing_digest(), curve: self.signing_curve(), data })
    }

    /// `history` is how far a chain can come: each of its keys is one that `generate` gave for the
    /// key's place in the chain, and each of its signatures one that `sign` gave, by the key
    /// before it, for the entry in its place.
    pub open spec fn can_grow<
        G: Fn(KeyRequest) -> Result<KeyMaterial<K>, Error>,
        S: Fn(&K, SignRequest) -> Result<Vec<u8>, Error>,
    >(&self, generate: G, sign: S, history: ChainHistory<K>) -> bool {
        &&& history.keys.len() <= 1 + STAGE_COUNT
        &&& history.signatures.len() == if history.keys.len() == 0 {
            0
        } else {
            history.keys.len() - 1
        }
        &&& forall|i: int|
            0 <= i < history.keys.len() ==> self.key_outcome(
                generate,
                key_context(self.boot_info(), i),
                Ok(#[trigger] history.keys[i]),
            )
        &&& forall|i: int|
            0 <= i < history.keys.len()
                ==> (#[trigger] history.keys[i]).cose_key.has_distinct_labels()
        &&& forall|i: int|
            0 <= i < history.signatures.len() ==> self.sign_outcome(
                sign,
                history.keys[i].private_key,
                entry_signed_data(self.algo(), self.boot_info(), history.keys, i),
                Ok(#[trigger] history.signatures[i]),
            )
    }

    /// Past `history`, the chain breaks off with `e`: the next key is not to be had, or is not
    /// well-formed, or its entry is not signed.
    pub open spec fn can_break_off<
        G: Fn(KeyRequest) -> Result<KeyMaterial<K>, Error>,
        S: Fn(&K, SignRequest) -> Result<Vec<u8>, Error>,
    >(&self, generate: G, sign: S, history: ChainHistory<K>, e: Error) -> bool {
        let n = history.keys.len() as int;
        let context = key_context(self.boot_info(), n);
        &&& self.can_grow(generate, sign, history)
        &&& n <= STAGE_COUNT
        &&& {
            ||| self.key_outcome(generate, context, Err(e))
            ||| exists|key: StageKey<K>| #[trigger]
                self.key_outcome(generate, context, Ok(key)) && !key.cose_key.has_distinct_labels()
                    && e == Error::Cbor(CborError::DuplicateMapKey)
            ||| n > 0 && exists|key: StageKey<K>| #[trigger]
                self.key_outcome(generate, context, Ok(key)) && key.cose_key.has_distinct_labels()
                    && self.sign_outcome(
                    sign,
                    history.keys[n - 1].private_key,
                    entry_signed_data(
                        self.algo(),
                        self.boot_info(),
                        history.keys.push(key),
                        n - 1,
                    ),
                    Err(e),
                )
        }
    }

    /// Every secret that the chain takes is derived.
    pub open spec fn derives_all(&self) -> bool {
        forall|i: int, e: Error|
            0 <= i <= STAGE_COUNT ==> !#[trigger] self.is_key_request(
                key_context(self.boot_info(), i),
                Err(e),
            )
    }

    /// A chain does not break off where every secret is derived, every key generated and every
    /// entry signed.
    pub proof fn law_chain_is_completed<
        G: Fn(KeyRequest) -> Result<KeyMaterial<K>, Error>,
        S: Fn(&K, SignRequest) -> Result<Vec<u8>, Error>,
    >(&self, generate: G, sign: S, history: ChainHistory<K>, e: Error)
        requires
            self.derives_all(),
            always_generates(generate),
            always_signs(sign),
        ensures
            !self.can_break_off(generate, sign, history, e),
    {
    }

    /// Each entry is signed by the key of the stage before it, or by that of the UDS in the first
    /// entry, with the digest and the curve of the signing algorithm.
    pub proof fn law_entries_are_signed_by_the_key_before<
        G: Fn(KeyRequest) -> Result<KeyMaterial<K>, Error>,
        S: Fn(&K, SignRequest) -> Result<Vec<u8>, Error>,
    >(&self, generate: G, sign: S, history: ChainHistory<K>, i: int)
        requires
            self.can_grow(generate, sign, history),
            0 <= i < history.signatures.len(),
        ensures
            exists|q: SignRequest|
                {
                    &&& #[trigger] sign.ensures(
                        (&history.keys[i].private_key, q),
                        Ok(history.signatures[i]),
                    )
                    &&& q.digest == digest_for(self.algo())
                    &&& q.curve == curve_for(self.algo())
                    &&& q.data@ == sig_structure(
                        cose_algorithm(self.algo()),
                        entry_payload(self.algo(), self.boot_info(), history.keys, i),
                    )
                },
    {
        let key = history.keys[i];
        let signature = history.signatures[i];
        assert(self.sign_outcome(
            sign,
            key.private_key,
            entry_signed_data(self.algo(), self.boot_info(), history.keys, i),
            Ok(signature),
        ));
    }

    /// Every key of a chain, that of `CDI_Leaf` among them, matches the signing algorithm: it was
    /// generated for its place in the chain, on the algorithm's curve or, for EdDSA, imported from
    /// the secret that is derived for its place in the chain.
    pub proof fn law_keys_match_the_signing_algorithm<
        G: Fn(KeyRequest) -> Result<KeyMaterial<K>, Error>,
        S: Fn(&K, SignRequest) -> Result<Vec<u8>, Error>,
    >(&self, generate: G, sign: S, history: ChainHistory<K>, i: int)
        requires
            self.can_grow(generate, sign, history),
            0 <= i < history.keys.len(),
        ensures
            exists|q: KeyRequest|
                {
                    &&& #[trigger] generate.ensures((q,), Ok(KeyMaterial::Ec(history.keys[i])))
                    &&& is_request_for(self.algo(), q)
                    &&& self.is_key_request(key_context(self.boot_info(), i), Ok(q))
                },
    {
        let key = history.keys[i];
        assert(self.key_outcome(generate, key_context(self.boot_info(), i), Ok(key)));
    }

    /// Every key of a chain answers a request for a context of its own, so that the chain does not
    /// certify one key over and over. The context stands in the request for a NIST key; in that for
    /// an Ed25519 key stands the secret that is derived from it.
    pub proof fn law_keys_answer_requests_of_their_own<
        G: Fn(KeyRequest) -> Result<KeyMaterial<K>, Error>,
        S: Fn(&K, SignRequest) -> Result<Vec<u8>, Error>,
    >(&self, generate: G, sign: S, history: ChainHistory<K>, i: int, j: int)
        requires
            self.can_grow(generate, sign, history),
            0 <= i < j < history.keys.len(),
        ensures
            key_context(self.boot_info(), i) != key_context(self.boot_info(), j),
            exists|p: KeyRequest, q: KeyRequest|
                {
                    &&& #[trigger] generate.ensures((p,), Ok(KeyMaterial::Ec(history.keys[i])))
                    &&& #[trigger] generate.ensures((q,), Ok(KeyMaterial::Ec(history.keys[j])))
                    &&& self.is_key_request(key_context(self.boot_info(), i), Ok(p))
                    &&& self.is_key_request(key_context(self.boot_info(), j), Ok(q))
                    &&& self.algo() != CsrSigningAlgorithm::EdDSA ==> p is GenerateNist
                        && q is GenerateNist && p->GenerateNist_1@ != q->GenerateNist_1@
                },
    {
        let boot = self.boot_info();
        law_keys_have_their_own_contexts(boot, boot, i, j);
        self.law_keys_match_the_signing_algorithm(generate, sign, history, i);
        self.law_keys_match_the_signing_algorithm(generate, sign, history, j);
        let p = choose|q: KeyRequest| #[trigger]
            generate.ensures((q,), Ok(KeyMaterial::Ec(history.keys[i]))) && self.is_key_request(
                key_context(boot, i),
                Ok(q),
            );
        let q = choose|q: KeyRequest| #[trigger]
            generate.ensures((q,), Ok(KeyMaterial::Ec(history.keys[j]))) && self.is_key_request(
                key_context(boot, j),
                Ok(q),
            );
        assert(generate.ensures((p,), Ok(KeyMaterial::Ec(history.keys[i]))));
        assert(generate.ensures((q,), Ok(KeyMaterial::Ec(history.keys[j]))));
    }

    /// The keys of an Ed25519 device, that of `CDI_Leaf` among them, depend on what is derived
    /// alone: with derivation and import that give the same for the same, as after a restart, they
    /// are the same again, whatever the boot state.
    pub proof fn law_ed25519_keys_are_reproducible<
        U: DeriveBytes,
        G: Fn(KeyRequest) -> Result<KeyMaterial<K>, Error>,
        H: Fn(KeyRequest) -> Result<KeyMaterial<K>, Error>,
        S: Fn(&K, SignRequest) -> Result<Vec<u8>, Error>,
        V: Fn(&K, SignRequest) -> Result<Vec<u8>, Error>,
    >(
        &self,
        g: G,
        s: S,
        a: ChainHistory<K>,
        other: &Artifacts<U, K>,
        h: H,
        t: V,
        b: ChainHistory<K>,
    )
        requires
            self.algo() == CsrSigningAlgorithm::EdDSA,
            other.algo() == CsrSigningAlgorithm::EdDSA,
            derive_alike(self.derivation(), other.derivation()),
            import_alike(g, h),
            self.can_grow(g, s, a),
            other.can_grow(h, t, b),
            a.keys.len() == b.keys.len(),
        ensures
            forall|i: int| 0 <= i < a.keys.len() ==> is_same_key(#[trigger] a.keys[i], b.keys[i]),
            a.keys.len() > 0 ==> a.keys.last().private_key == b.keys.last().private_key,
    {
        assert forall|i: int| 0 <= i < a.keys.len() implies is_same_key(
            #[trigger] a.keys[i],
            b.keys[i],
        ) by {
            let context = key_context(self.boot_info(), i);
            assert(context == key_context(other.boot_info(), i));
            assert(self.key_outcome(g, context, Ok(a.keys[i])));
            assert(other.key_outcome(h, context, Ok(b.keys[i])));
            let p = choose|q: KeyRequest|
                self.is_key_request(context, Ok(q)) && #[trigger] g.ensures(
                    (q,),
                    Ok(KeyMaterial::Ec(a.keys[i])),
                );
            let q = choose|q: KeyRequest|
                other.is_key_request(context, Ok(q)) && #[trigger] h.ensures(
                    (q,),
                    Ok(KeyMaterial::Ec(b.keys[i])),
                );
            assert(p is ImportEd25519 && q is ImportEd25519);
        }
        if a.keys.len() > 0 {
            let last = a.keys.len() - 1;
            assert(is_same_key(a.keys[last], b.keys[last]));
        }
    }

    /// The DICE information of an Ed25519 device is the same whenever it is generated for the same
    /// boot state, as after a restart, if derivation, import and signing give the same for the
    /// same.
    pub proof fn law_ed25519_chain_is_reproducible<
        U: DeriveBytes,
        G: Fn(KeyRequest) -> Result<KeyMaterial<K>, Error>,
        H: Fn(KeyRequest) -> Result<KeyMaterial<K>, Error>,
        S: Fn(&K, SignRequest) -> Result<Vec<u8>, Error>,
        V: Fn(&K, SignRequest) -> Result<Vec<u8>, Error>,
    >(
        &self,
        g: G,
        s: S,
        a: ChainHistory<K>,
        x: DiceInfoModel,
        other: &Artifacts<U, K>,
        h: H,
        t: V,
        b: ChainHistory<K>,
        y: DiceInfoModel,
    )
        requires
            self.algo() == CsrSigningAlgorithm::EdDSA,
            other.algo() == CsrSigningAlgorithm::EdDSA,
            is_same_boot(self.boot_info(), other.boot_info()),
            derive_alike(self.derivation(), other.derivation()),
            import_alike(g, h),
            sign_alike(s, t),
            self.can_grow(g, s, a),
            other.can_grow(h, t, b),
            a.keys.len() == b.keys.len() > 0,
            self.is_info_for(a, x),
            other.is_info_for(b, y),
        ensures
            x == y,
            a.keys.last().private_key == b.keys.last().private_key,
    {
        let algo = self.algo();
        let boot = self.boot_info();
        let same = other.boot_info();
        self.law_ed25519_keys_are_reproducible(g, s, a, other, h, t, b);
        assert(stage_models(boot) =~= stage_models(same));
        assert forall|i: int| 0 <= i < a.keys.len() implies chain_element(algo, boot, a, i)
            == #[trigger] chain_element(algo, same, b, i) by {
            assert(is_same_key(a.keys[i], b.keys[i]));
            if i > 0 {
                assert(is_same_key(a.keys[i - 1], b.keys[i - 1]));
                let data = entry_signed_data(algo, boot, a.keys, i - 1);
                assert(entry_payload(algo, boot, a.keys, i - 1) == entry_payload(
                    algo,
                    same,
                    b.keys,
                    i - 1,
                ));
                assert(self.sign_outcome(
                    s,
                    a.keys[i - 1].private_key,
                    data,
                    Ok(a.signatures[i - 1]),
                ));
                assert(other.sign_outcome(
                    t,
                    b.keys[i - 1].private_key,
                    data,
                    Ok(b.signatures[i - 1]),
                ));
            }
        }
        lemma_chain_elements_equal(algo, boot, a, same, b, a.keys.len());
    }

    /// The DICE information and the key that signs certificate requests are populated together.
    pub proof fn law_info_comes_with_its_key(&self)
        ensures
            self.info() is Some <==> self.signing_key() is Some,
    {
    }

    /// `info` is the DICE information for the chain of `history`.
    pub open spec fn is_info_for(&self, history: ChainHistory<K>, info: DiceInfoModel) -> bool {
        &&& info.dice_cert_chain == dice_cert_chain(self.algo(), self.boot_info(), history)
        &&& info.uds_certs == encode(seq![DataItem::Pairs(0)])
        &&& info.signing_algorithm == self.algo()
    }

    /// Generate the DICE chain: `UDS_Pub` followed by one `DiceChainEntry` per boot stage, each
    /// signed by the key of the stage before it. The private key of the last stage is returned,
    /// as it is `CDI_Leaf` and signs certificate requests.
    pub fn generate_dice_artifacts<
        G: Fn(KeyRequest) -> Result<KeyMaterial<K>, Error>,
        S: Fn(&K, SignRequest) -> Result<Vec<u8>, Error>,
    >(&self, _test_mode: TestMode, generate: &G, sign: &S) -> (r: Result<(DiceInfo, K), Error>)
        requires
            forall|q: KeyRequest| generate.requires((q,)),
            forall|k: &K, q: SignRequest| sign.requires((k, q)),
            gives_short_keys(*generate),
        ensures
            match r {
                Ok((info, key)) => exists|history: ChainHistory<K>| #[trigger]
                    self.can_grow(*generate, *sign, history) && history.keys.len() == 1
                        + STAGE_COUNT && self.is_info_for(history, info@) && key
                        == history.keys.last().private_key,
                Err(e) => exists|history: ChainHistory<K>| #[trigger]
                    self.can_break_off(*generate, *sign, history, e),
            },
            self.derives_all() && always_generates(*generate) && always_signs(*sign) ==> r is Ok,
    {
        let cose_algo = self.signing_cose_algo();
        let ghost algo = self.algo();
        let ghost boot = self.boot_info();
        let ghost mut history = ChainHistory::<K> { keys: seq![], signatures: seq![] };

        // `UDS_Pub` is the root of the chain and is not itself certified.
        let uds_key = match self.stage_key(generate, "UDS Key Seed".as_bytes()) {
            Ok(key) => key,
            Err(e) => {
                assert(self.can_break_off(*generate, *sign, history, e));
                return Err(e);
            },
        };
        let raw_key = self.raw_public_key(uds_key.public_key.as_slice());
        let mut issuer_id = dice_id(raw_key.as_slice())?;
        let uds_key_cbor = match uds_key.cose_key.to_cbor_value() {
            Ok(value) => value,
            Err(e) => {
                assert(self.can_break_off(*generate, *sign, history, e));
                return Err(e);
            },
        };
        proof {
            history = ChainHistory { keys: seq![uds_key], signatures: seq![] };
        }
        let mut issuer_key = uds_key.private_key;
        let mut chain: Vec<Value> = Vec::new();
        chain.push(uds_key_cbor);
        proof {
            reveal_with_fuel(element_items, 2);
            reveal_with_fuel(chain_elements, 2);
            assert(chain@.drop_last() =~= seq![]);
            assert(element_items(chain@) =~= chain_elements(algo, boot, history, 1));
        }

        let stages = self.boot_stages();
        let last: usize = stages.len() - 1;
        for idx in 0..stages.len()
            invariant
                algo == self.algo(),
                boot == self.boot_info(),
                cose_algo == cose_algorithm(algo),
                stages@.len() == STAGE_COUNT,
                last == STAGE_COUNT - 1,
                forall|i: int|
                    0 <= i < stages@.len() ==> (#[trigger] stages@[i])@ == stage_models(boot)[i],
                forall|q: KeyRequest| generate.requires((q,)),
                forall|k: &K, q: SignRequest| sign.requires((k, q)),
                gives_short_keys(*generate),
                self.can_grow(*generate, *sign, history),
                history.keys.len() == idx + 1,
                issuer_key == history.keys.last().private_key,
                issuer_id@ == key_id(algo, history.keys.last()),
                forall|i: int| 0 <= i < chain@.len() ==> is_plain(#[trigger] chain@[i]),
                chain@.len() == idx + 1,
                element_items(chain@) == chain_elements(algo, boot, history, (idx + 1) as nat),
        {
            let stage = &stages[idx];
            proof {
                lemma_stage_names(boot);
            }
            // The last stage keeps the key derivation context that has always been used for the
            // leaf key, so that `CDI_Leaf` is unchanged.
            let mut seed = "CDI Key Seed: ".to_owned();
            seed.append(stage.name);
            let context = if idx == last {
                "Device Key Seed".as_bytes()
            } else {
                seed.as_str().as_bytes()
            };
            let subject = match self.stage_key(generate, context) {
                Ok(key) => key,
                Err(e) => {
                    assert(self.can_break_off(*generate, *sign, history, e));
                    return Err(e);
                },
            };
            let raw_key = self.raw_public_key(subject.public_key.as_slice());
            let subject_id = dice_id(raw_key.as_slice())?;
            let payload = match self.entry_payload(
                issuer_id.as_str(),
                subject_id.as_str(),
                stage,
                &subject.cose_key,
            ) {
                Ok(payload) => payload,
                Err(e) => {
                    assert(self.can_break_off(*generate, *sign, history, e));
                    return Err(e);
                },
            };
            let ghost keys = history.keys.push(subject);
            assert(payload@ == entry_payload(algo, boot, keys, idx as int));
            let input = sign1_tbs_data(cose_algo, &payload);
            let signature = match self.sign_with(sign, &issuer_key, input) {
                Ok(signature) => signature,
                Err(e) => {
                    assert(self.can_break_off(*generate, *sign, history, e));
                    return Err(e);
                },
            };
            let ghost grown = ChainHistory { keys, signatures: history.signatures.push(signature) };
            let entry = match sign1_to_cbor_value(cose_algo, payload, signature) {
                Ok(entry) => entry,
                Err(_) => {
                    return Err(Error::Cbor(CborError::EncodeFailed));
                },
            };
            let ghost before = chain@;
            chain.push(entry);
            proof {
                assert(self.can_grow(*generate, *sign, grown));
                lemma_chain_elements_grow(algo, boot, history, grown, (idx + 1) as nat);
                assert(chain@.drop_last() =~= before);
                history = grown;
            }
            issuer_key = subject.private_key;
            issuer_id = subject_id;
        }

        // Construct `DiceCertChain`
        let dice_cert_chain = serialize_cbor(&Value::Array(chain))?;

        // Construct `UdsCerts` as an empty CBOR map
        let uds_certs = FieldMap::new().serialize()?;

        let info = DiceInfo {
            pub_dice_artifacts: PubDiceArtifacts { dice_cert_chain, uds_certs },
            signing_algorithm: self.sign_algo,
        };
        assert(self.is_info_for(history, info@));
        Ok((info, issuer_key))
    }

    /// `r` is the answer to a request for the DICE information, after which the artifacts are
    /// `after`. What is there already is answered. Otherwise the chain is generated, and what
    /// becomes of it is stored, or its failure passed on and nothing changed.
    pub open spec fn info_outcome<
        G: Fn(KeyRequest) -> Result<KeyMaterial<K>, Error>,
        S: Fn(&K, SignRequest) -> Result<Vec<u8>, Error>,
    >(&self, generate: G, sign: S, after: Self, r: Result<DiceInfo, Error>) -> bool {
        &&& after.derivation() == self.derivation()
        &&& after.algo() == self.algo()
        &&& after.boot_info() == self.boot_info()
        &&& after.wf()
        &&& r matches Ok(info) ==> after.info() == Some(info@) && info.signing_algorithm
            == self.algo() && after.signing_key() is Some && is_chain_to(
            self.algo(),
            self.boot_info(),
            after.origin(),
            info@.dice_cert_chain,
            after.signing_key()->0,
        )
        &&& self.info() is Some ==> r is Ok && after == *self
        &&& self.info() is None ==> match r {
            Ok(info) => exists|history: ChainHistory<K>| #[trigger]
                self.can_grow(generate, sign, history) && history.keys.len() == 1 + STAGE_COUNT
                    && self.is_info_for(history, info@) && after.signing_key() == Some(
                    history.keys.last().private_key,
                ) && after.origin() == keys_from(generate),
            Err(e) => after == *self && exists|history: ChainHistory<K>| #[trigger]
                self.can_break_off(generate, sign, history, e),
        }
    }

    /// `r` is the answer to a request to sign `data`. It is refused before there is a key.
    pub open spec fn data_outcome<S: Fn(&K, SignRequest) -> Result<Vec<u8>, Error>>(
        &self,
        sign: S,
        data: Seq<u8>,
        r: Result<Vec<u8>, Error>,
    ) -> bool {
        match self.signing_key() {
            Some(key) => self.sign_outcome(sign, key, data, r),
            None => r matches Err(e) && e.is_rpc(
                RpcErrorCode::Failed,
                "DICE artifacts are not initialized."@,
            ),
        }
    }

    /// Every secret before position `i` of the chain is derived.
    pub open spec fn derives_before(&self, i: int) -> bool {
        forall|j: int, e: Error|
            0 <= j < i ==> !#[trigger] self.is_key_request(
                key_context(self.boot_info(), j),
                Err(e),
            )
    }

    /// A derivation that fails for a key of the chain fails the request for the DICE information.
    /// Nothing is stored, and a request to sign is still refused. The error is that of the
    /// derivation, unless something failed before it was asked: an earlier derivation, the
    /// generation of an earlier key, or the signature of an earlier entry.
    pub proof fn law_failed_derivation_is_passed_on<
        G: Fn(KeyRequest) -> Result<KeyMaterial<K>, Error>,
        S: Fn(&K, SignRequest) -> Result<Vec<u8>, Error>,
    >(
        &self,
        generate: G,
        sign: S,
        i: int,
        e: Error,
        after: Self,
        r: Result<DiceInfo, Error>,
        data: Seq<u8>,
        signed: Result<Vec<u8>, Error>,
    )
        requires
            self.info() is None,
            self.algo() == CsrSigningAlgorithm::EdDSA,
            0 <= i <= STAGE_COUNT,
            forall|d: Result<Vec<u8>, Error>| #[trigger]
                can_derive(self.derivation(), key_context(self.boot_info(), i), 32, d) ==> d is Err
                    && d->Err_0 == e,
            self.info_outcome(generate, sign, after, r),
            after.data_outcome(sign, data, signed),
        ensures
            r is Err,
            self.derives_before(i) && (i > 0 ==> always_generates(generate)) && (i > 1
                ==> always_signs(sign)) ==> r->Err_0 == e,
            after == *self,
            after.info() is None,
            after.signing_key() is None,
            signed matches Err(x) && x.is_rpc(
                RpcErrorCode::Failed,
                "DICE artifacts are not initialized."@,
            ),
    {
        self.law_info_comes_with_its_key();
        let boot = self.boot_info();
        // No chain gets past the key that is not derived.
        assert forall|history: ChainHistory<K>| #[trigger]
            self.can_grow(generate, sign, history) implies history.keys.len() <= i by {
            if history.keys.len() > i {
                assert(self.key_outcome(generate, key_context(boot, i), Ok(history.keys[i])));
            }
        }
        if let Err(x) = r {
            let history = choose|history: ChainHistory<K>| #[trigger]
                self.can_break_off(generate, sign, history, x);
            let n = history.keys.len() as int;
            assert(self.can_grow(generate, sign, history));
            assert(n <= i);
            if n == i {
                assert(self.is_key_request(key_context(boot, n), Err(x)) ==> x == e);
            }
        }
    }

    /// A request for the DICE information that failed leaves no trace. The next one, where keys are
    /// generated and entries signed, succeeds unless a derivation fails, whose error it passes on.
    pub proof fn law_failed_request_can_be_made_again<
        G: Fn(KeyRequest) -> Result<KeyMaterial<K>, Error>,
        H: Fn(KeyRequest) -> Result<KeyMaterial<K>, Error>,
        S: Fn(&K, SignRequest) -> Result<Vec<u8>, Error>,
        V: Fn(&K, SignRequest) -> Result<Vec<u8>, Error>,
    >(
        &self,
        g: G,
        s: S,
        after: Self,
        r: Result<DiceInfo, Error>,
        h: H,
        t: V,
        later: Self,
        again: Result<DiceInfo, Error>,
    )
        requires
            self.info_outcome(g, s, after, r),
            r is Err,
            after.info_outcome(h, t, later, again),
            always_generates(h),
            always_signs(t),
        ensures
            after == *self,
            again is Ok || exists|i: int|
                0 <= i <= STAGE_COUNT && #[trigger] after.is_key_request(
                    key_context(after.boot_info(), i),
                    Err(again->Err_0),
                ),
    {
        if let Err(x) = again {
            let history = choose|history: ChainHistory<K>| #[trigger]
                after.can_break_off(h, t, history, x);
            let n = history.keys.len() as int;
            assert(after.is_key_request(key_context(after.boot_info(), n), Err(x)));
        }
    }

    /// Return the DICE information, which is generated when it is first asked for. Test mode makes
    /// no difference.
    pub fn get_dice_info<
        G: Fn(KeyRequest) -> Result<KeyMaterial<K>, Error>,
        S: Fn(&K, SignRequest) -> Result<Vec<u8>, Error>,
    >(&mut self, _test_mode: TestMode, generate: &G, sign: &S) -> (r: Result<DiceInfo, Error>)
        requires
            old(self).info() is None ==> forall|q: KeyRequest| generate.requires((q,)),
            old(self).info() is None ==> forall|k: &K, q: SignRequest| sign.requires((k, q)),
            old(self).info() is None ==> gives_short_keys(*generate),
        ensures
            old(self).info_outcome(*generate, *sign, *final(self), r),
            old(self).derives_all() && always_generates(*generate) && always_signs(*sign)
                ==> r is Ok,
    {
        proof {
            use_type_invariant(&*self);
        }
        if self.dice.is_none() {
            match self.generate_dice_artifacts(TestMode(false), generate, sign) {
                Ok((info, key)) => {
                    proof {
                        let history = choose|history: ChainHistory<K>| #[trigger]
                            self.can_grow(*generate, *sign, history) && history.keys.len() == 1
                                + STAGE_COUNT && self.is_info_for(history, info@) && key
                                == history.keys.last().private_key;
                        let leaf = history.keys[STAGE_COUNT as int];
                        self.law_keys_match_the_signing_algorithm(
                            *generate,
                            *sign,
                            history,
                            STAGE_COUNT as int,
                        );
                        let q = choose|q: KeyRequest| #[trigger]
                            generate.ensures((q,), Ok(KeyMaterial::Ec(leaf))) && is_request_for(
                                self.algo(),
                                q,
                            );
                        assert(keys_from(*generate)(q, leaf));
                        assert(history.keys.last() == leaf);
                        assert(is_chain_to(
                            self.algo(),
                            self.boot_info(),
                            keys_from(*generate),
                            info@.dice_cert_chain,
                            key,
                        ));
                    }
                    self.dice = Some((info, key, Ghost(keys_from(*generate))));
                },
                Err(e) => {
                    return Err(e);
                },
            }
        }
        proof {
            use_type_invariant(&*self);
        }
        match &self.dice {
            Some((info, _, _)) => Ok(info.clone()),
            None => Err(not_initialized()),
        }
    }

    /// Sign `data` with the key of `CDI_Leaf`. DICE artifacts should have been initialized via
    /// `get_dice_info()` by the time this method is called.
    pub fn sign_data<S: Fn(&K, SignRequest) -> Result<Vec<u8>, Error>>(
        &self,
        sign: &S,
        data: &[u8],
    ) -> (r: Result<Vec<u8>, Error>)
        requires
            self.signing_key() is Some ==> forall|k: &K, q: SignRequest| sign.requires((k, q)),
        ensures
            self.data_outcome(*sign, data@, r),
            self.signing_key() matches Some(key) ==> exists|q: SignRequest|
                {
                    &&& #[trigger] sign.ensures((&key, q), r)
                    &&& q.data@ == data@
                    &&& self.algo() is ES256 ==> q.digest is Sha256 && q.curve is P256
                    &&& self.algo() is ES384 ==> q.digest is Sha384 && q.curve is P384
                    &&& self.algo() is EdDSA ==> q.digest is NoDigest && q.curve is Curve25519
                },
            self.signing_key() is None ==> r is Err,
            self.wf(),
    {
        proof {
            use_type_invariant(self);
        }
        match &self.dice {
            Some((_, key, _)) => {
                self.sign_with(sign, key, copied(data))
            },
            None => Err(not_initialized()),
        }
    }
}

} // verus!
