//! COSE keys and single-signer signed messages (RFC 8152).

use ciborium::value::Value;
use coset::{AsCborValue, CoseError};
use vstd::prelude::*;
use vstd::utf8::{encode_utf8, is_ascii_chars_encode_utf8};

use crate::cbor::{
    big_endian, encode, is_plain, items, law_encoding_determines_items, lemma_encode_one, DataItem,
};
use crate::error::{CborError, Error};

verus! {

/// The error of `coset`.
#[verifier::external_type_specification]
#[verifier::external_body]
pub struct ExCoseError(CoseError);

/// A signature algorithm, as the COSE registry names it.
#[derive(Clone, Copy, Debug, PartialEq, Eq, Structural)]
pub enum CoseAlgorithm {
    /// ECDSA with SHA-256.
    ES256,
    /// ECDSA with SHA-384.
    ES384,
    /// EdDSA.
    EdDSA,
}

impl CoseAlgorithm {
    /// The algorithm's number in the COSE registry.
    pub open spec fn number(self) -> int {
        match self {
            CoseAlgorithm::ES256 => -7,
            CoseAlgorithm::ES384 => -35,
            CoseAlgorithm::EdDSA => -8,
        }
    }
}

/// A kind of key, as the COSE registry names it.
#[derive(Clone, Copy, Debug, PartialEq, Eq, Structural)]
pub enum KeyType {
    /// Octet key pair.
    Okp,
    /// Elliptic curve key with both coordinates.
    Ec2,
}

impl KeyType {
    /// The key type's number in the COSE registry.
    pub open spec fn number(self) -> int {
        match self {
            KeyType::Okp => 1,
            KeyType::Ec2 => 2,
        }
    }
}

/// The value of a key parameter.
#[derive(Debug)]
pub enum KeyParam {
    /// A number, such as that of a curve.
    Int(i64),
    /// A byte string, such as a coordinate.
    Bytes(Vec<u8>),
}

impl KeyParam {
    /// The data item that the parameter is written as.
    pub open spec fn item(self) -> DataItem {
        match self {
            KeyParam::Int(n) => DataItem::Int(n as int),
            KeyParam::Bytes(b) => DataItem::Bytes(b@),
        }
    }
}

/// The public half of a key: its kind, the algorithm it is for, and its labelled parameters.
#[derive(Debug)]
pub struct CoseKey {
    /// Kind of key.
    pub kty: KeyType,
    /// The one algorithm that the key may be used with, if it is restricted.
    pub alg: Option<CoseAlgorithm>,
    /// Parameters in the order in which they are written.
    pub params: Vec<(i64, KeyParam)>,
}

/// The data items that a `COSE_Key` map with `n` parameters begins with.
pub open spec fn key_head(kty: KeyType, alg: Option<CoseAlgorithm>, n: nat) -> Seq<DataItem> {
    match alg {
        Some(alg) => seq![
            DataItem::Pairs(2 + n),
            DataItem::Int(1),
            DataItem::Int(kty.number()),
            DataItem::Int(3),
            DataItem::Int(alg.number()),
        ],
        None => seq![DataItem::Pairs(1 + n), DataItem::Int(1), DataItem::Int(kty.number())],
    }
}

/// The data items of labelled parameters, each label followed by its value.
pub open spec fn param_items(params: Seq<(i64, KeyParam)>) -> Seq<DataItem>
    decreases params.len(),
{
    if params.len() == 0 {
        seq![]
    } else {
        param_items(params.drop_last()) + seq![
            DataItem::Int(params.last().0 as int),
            params.last().1.item(),
        ]
    }
}

impl CoseKey {
    /// No two parameters have the same label.
    pub open spec fn has_distinct_labels(self) -> bool {
        forall|i: int, j: int|
            0 <= i < j < self.params@.len() ==> (#[trigger] self.params@[i]).0 != (
            #[trigger] self.params@[j]).0
    }

    /// The data items of the `COSE_Key` map: key type, algorithm, then the parameters.
    pub open spec fn items(self) -> Seq<DataItem> {
        key_head(self.kty, self.alg, self.params@.len()) + param_items(self.params@)
    }
}

/// The serialized protected header that names `alg` and nothing else.
pub open spec fn protected_header(alg: CoseAlgorithm) -> Seq<u8> {
    encode(seq![DataItem::Pairs(1), DataItem::Int(1), DataItem::Int(alg.number())])
}

/// The bytes that are signed for a `COSE_Sign1` message: the `Sig_structure` of RFC 8152 section
/// 4.4, without external data.
pub open spec fn sig_structure(alg: CoseAlgorithm, payload: Seq<u8>) -> Seq<u8> {
    encode(
        seq![
            DataItem::Elements(4),
            DataItem::Text("Signature1"@),
            DataItem::Bytes(protected_header(alg)),
            DataItem::Bytes(seq![]),
            DataItem::Bytes(payload),
        ],
    )
}

/// The data items of a `COSE_Sign1` message whose unprotected header is empty.
pub open spec fn sign1_items(alg: CoseAlgorithm, payload: Seq<u8>, signature: Seq<u8>) -> Seq<
    DataItem,
> {
    seq![
        DataItem::Elements(4),
        DataItem::Bytes(protected_header(alg)),
        DataItem::Pairs(0),
        DataItem::Bytes(payload),
        DataItem::Bytes(signature),
    ]
}

/// The data items of labelled values, each label followed by its value.
pub open spec fn labelled_items(params: Seq<(i64, Value)>) -> Seq<DataItem>
    decreases params.len(),
{
    if params.len() == 0 {
        seq![]
    } else {
        labelled_items(params.drop_last()).push(DataItem::Int(params.last().0 as int)) + items(
            params.last().1,
        )
    }
}

/// `coset::CoseKey::to_cbor_value` on a key with the given type, algorithm and parameters, and no
/// other field set: it fails if and only if two parameters have the same label; otherwise the
/// value is the map of RFC 8152 section 7, in the order key type, algorithm, parameters, with
/// the parameters' values as they were given.
#[verifier::external_body]
fn key_to_cbor_value(kty: KeyType, alg: Option<CoseAlgorithm>, params: Vec<(i64, Value)>) -> (r:
    Result<Value, CoseError>)
    ensures
        r is Ok <==> (forall|i: int, j: int|
            0 <= i < j < params@.len() ==> (#[trigger] params@[i]).0 != (#[trigger] params@[j]).0),
        r matches Ok(v) ==> items(v) == key_head(kty, alg, params@.len()) + labelled_items(params@),
        r matches Ok(v) ==> (forall|i: int|
            0 <= i < params@.len() ==> is_plain((#[trigger] params@[i]).1)) ==> is_plain(v),
{
    let kty = match kty {
        KeyType::Okp => coset::KeyType::Assigned(coset::iana::KeyType::OKP),
        KeyType::Ec2 => coset::KeyType::Assigned(coset::iana::KeyType::EC2),
    };
    let alg = alg.map(|alg| match alg {
        CoseAlgorithm::ES256 => coset::Algorithm::Assigned(coset::iana::Algorithm::ES256),
        CoseAlgorithm::ES384 => coset::Algorithm::Assigned(coset::iana::Algorithm::ES384),
        CoseAlgorithm::EdDSA => coset::Algorithm::Assigned(coset::iana::Algorithm::EdDSA),
    });
    let params = params.into_iter().map(|(n, value)| (coset::Label::Int(n), value)).collect();
    coset::CoseKey { kty, alg, params, ..Default::default() }.to_cbor_value()
}

impl KeyParam {
    /// The parameter as a CBOR value.
    fn to_value(&self) -> (r: Value)
        ensures
            is_plain(r),
            items(r) == seq![self.item()],
    {
        match self {
            KeyParam::Int(n) => Value::Integer((*n).into()),
            KeyParam::Bytes(b) => {
                let copy = b.clone();
                assert(copy@ =~= b@);
                Value::Bytes(copy)
            },
        }
    }
}

impl CoseKey {
    /// The `COSE_Key` map as a CBOR value. A key with two parameters of the same label has none.
    pub fn to_cbor_value(&self) -> (r: Result<Value, Error>)
        ensures
            r is Ok <==> self.has_distinct_labels(),
            r matches Ok(v) ==> is_plain(v) && items(v) == self.items(),
            r matches Err(e) ==> e == Error::Cbor(CborError::DuplicateMapKey),
    {
        let mut params: Vec<(i64, Value)> = Vec::new();
        for i in 0..self.params.len()
            invariant
                params@.len() == i,
                forall|j: int| 0 <= j < i ==> (#[trigger] params@[j]).0 == self.params@[j].0,
                forall|j: int| 0 <= j < i ==> is_plain((#[trigger] params@[j]).1),
                labelled_items(params@) == param_items(self.params@.take(i as int)),
        {
            let ghost before = params@;
            let ghost prefix = self.params@.take(i as int);
            params.push((self.params[i].0, self.params[i].1.to_value()));
            proof {
                let longer = self.params@.take(i + 1);
                assert(params@.drop_last() =~= before);
                assert(longer.drop_last() =~= prefix);
                assert(labelled_items(params@) =~= param_items(longer));
            }
        }
        assert(self.params@.take(self.params@.len() as int) =~= self.params@);
        assert(self.has_distinct_labels() <==> (forall|i: int, j: int|
            0 <= i < j < params@.len() ==> (#[trigger] params@[i]).0 != (#[trigger] params@[j]).0))
            by {
            if self.has_distinct_labels() {
                assert forall|i: int, j: int| 0 <= i < j < params@.len() implies (
                #[trigger] params@[i]).0 != (#[trigger] params@[j]).0 by {
                    assert(self.params@[i].0 != self.params@[j].0);
                }
            } else {
                let (i, j) = choose|i: int, j: int|
                    0 <= i < j < self.params@.len() && (#[trigger] self.params@[i]).0 == (
                    #[trigger] self.params@[j]).0;
                assert(params@[i].0 == params@[j].0);
            }
        }
        match key_to_cbor_value(self.kty, self.alg, params) {
            Ok(value) => Ok(value),
            Err(_) => Err(Error::Cbor(CborError::DuplicateMapKey)),
        }
    }
}

/// `coset::CoseSign1::tbs_data` without external data, on a message with the given payload whose
/// protected header, made by `coset::HeaderBuilder`, holds `alg` alone: the `Sig_structure` that
/// is to be signed.
#[verifier::external_body]
pub(crate) fn sign1_tbs_data(alg: CoseAlgorithm, payload: &Vec<u8>) -> (r: Vec<u8>)
    ensures
        r@ == sig_structure(alg, payload@),
{
    let alg = match alg {
        CoseAlgorithm::ES256 => coset::iana::Algorithm::ES256,
        CoseAlgorithm::ES384 => coset::iana::Algorithm::ES384,
        CoseAlgorithm::EdDSA => coset::iana::Algorithm::EdDSA,
    };
    let protected = coset::HeaderBuilder::new().algorithm(alg).build();
    let message = coset::CoseSign1Builder::new().protected(protected).payload(payload.clone());
    message.build().tbs_data(&[])
}

/// `coset::CoseSign1::to_cbor_value` on a message with the given payload and signature whose
/// protected header, made by `coset::HeaderBuilder`, holds `alg` alone: it succeeds, with the
/// array of RFC 8152 section 4.2.
#[verifier::external_body]
pub(crate) fn sign1_to_cbor_value(alg: CoseAlgorithm, payload: Vec<u8>, signature: Vec<u8>) -> (r:
    Result<Value, CoseError>)
    ensures
        r is Ok,
        r matches Ok(v) ==> is_plain(v) && items(v) == sign1_items(alg, payload@, signature@),
{
    let alg = match alg {
        CoseAlgorithm::ES256 => coset::iana::Algorithm::ES256,
        CoseAlgorithm::ES384 => coset::iana::Algorithm::ES384,
        CoseAlgorithm::EdDSA => coset::iana::Algorithm::EdDSA,
    };
    let protected = coset::HeaderBuilder::new().algorithm(alg).build();
    let message = coset::CoseSign1Builder::new().protected(protected).payload(payload);
    message.signature(signature).build().to_cbor_value()
}

proof fn lemma_param_items(params: Seq<(i64, KeyParam)>)
    ensures
        param_items(params).len() == 2 * params.len(),
        forall|i: int|
            0 <= i < params.len() ==> param_items(params)[2 * i] == DataItem::Int(
                (#[trigger] params[i]).0 as int,
            ) && param_items(params)[2 * i + 1] == params[i].1.item(),
    decreases params.len(),
{
    if params.len() > 0 {
        let rest = params.drop_last();
        lemma_param_items(rest);
        assert forall|i: int| 0 <= i < params.len() implies param_items(params)[2 * i]
            == DataItem::Int((#[trigger] params[i]).0 as int) && param_items(params)[2 * i + 1]
            == params[i].1.item() by {
            if i < rest.len() {
                assert(rest[i] == params[i]);
            }
        }
    }
}

/// A key is written with its type (1 for an octet key pair, 2 for an elliptic curve key with both
/// coordinates) under label 1, its algorithm, if it has one, under label 3, and then every
/// parameter under its own label, as it stands and in order.
pub proof fn law_keys_are_written_with_every_parameter(key: CoseKey)
    ensures
        ({
            let items = key.items();
            let n = key.params@.len() as int;
            let start: int = if key.alg is Some {
                5
            } else {
                3
            };
            &&& items.len() == start + 2 * n
            &&& items[0] == DataItem::Pairs((start / 2 + n) as nat)
            &&& items[1] == DataItem::Int(1)
            &&& key.kty is Okp ==> items[2] == DataItem::Int(1)
            &&& key.kty is Ec2 ==> items[2] == DataItem::Int(2)
            &&& key.alg is Some ==> items[3] == DataItem::Int(3)
            &&& key.alg == Some(CoseAlgorithm::ES256) ==> items[4] == DataItem::Int(-7)
            &&& key.alg == Some(CoseAlgorithm::ES384) ==> items[4] == DataItem::Int(-35)
            &&& key.alg == Some(CoseAlgorithm::EdDSA) ==> items[4] == DataItem::Int(-8)
            &&& forall|i: int|
                0 <= i < n ==> items[start + 2 * i] == DataItem::Int(
                    (#[trigger] key.params@[i]).0 as int,
                ) && match key.params@[i].1 {
                    KeyParam::Int(m) => items[start + 2 * i + 1] == DataItem::Int(m as int),
                    KeyParam::Bytes(b) => items[start + 2 * i + 1] == DataItem::Bytes(b@),
                }
        }),
{
    lemma_param_items(key.params@);
    let head = key_head(key.kty, key.alg, key.params@.len());
    let start = head.len() as int;
    assert forall|i: int| 0 <= i < key.params@.len() implies key.items()[start + 2 * i]
        == DataItem::Int((#[trigger] key.params@[i]).0 as int) && key.items()[start + 2 * i + 1]
        == key.params@[i].1.item() by {
        assert(key.items()[start + 2 * i] == param_items(key.params@)[2 * i]);
        assert(key.items()[start + 2 * i + 1] == param_items(key.params@)[2 * i + 1]);
    }
}

/// A key is refused exactly if one of its labels occurs twice.
pub proof fn law_keys_are_refused_for_a_repeated_label(key: CoseKey)
    ensures
        key.has_distinct_labels() <==> key.params@.map_values(
            |p: (i64, KeyParam)| p.0,
        ).no_duplicates(),
{
    let labels = key.params@.map_values(|p: (i64, KeyParam)| p.0);
    if key.has_distinct_labels() {
        assert forall|i: int, j: int|
            0 <= i < labels.len() && 0 <= j < labels.len() && i != j implies labels[i]
            != labels[j] by {
            if i < j {
                assert(key.params@[i].0 != key.params@[j].0);
            } else {
                assert(key.params@[j].0 != key.params@[i].0);
            }
        }
    }
    if labels.no_duplicates() {
        assert forall|i: int, j: int| 0 <= i < j < key.params@.len() implies (
        #[trigger] key.params@[i]).0 != (#[trigger] key.params@[j]).0 by {
            assert(labels[i] != labels[j]);
        }
    }
}

/// The protected header is a map from label 1 to the number of the algorithm: -7 for ES256, -35 for
/// ES384 and -8 for EdDSA.
pub proof fn law_protected_headers_name_the_algorithm()
    ensures
        protected_header(CoseAlgorithm::ES256) == seq![0xA1u8, 0x01, 0x26],
        protected_header(CoseAlgorithm::ES384) == seq![0xA1u8, 0x01, 0x38, 0x22],
        protected_header(CoseAlgorithm::EdDSA) == seq![0xA1u8, 0x01, 0x27],
{
    reveal_with_fuel(encode, 4);
    reveal_with_fuel(big_endian, 2);
    assert(protected_header(CoseAlgorithm::ES256) =~= seq![0xA1u8, 0x01, 0x26]);
    assert(protected_header(CoseAlgorithm::ES384) =~= seq![0xA1u8, 0x01, 0x38, 0x22]);
    assert(protected_header(CoseAlgorithm::EdDSA) =~= seq![0xA1u8, 0x01, 0x27]);
}

/// What is signed for a message is an array of four: the text `Signature1`, the protected header, no
/// external data, and the whole of the payload.
pub proof fn law_the_whole_payload_is_signed(alg: CoseAlgorithm, payload: Seq<u8>)
    ensures
        sig_structure(alg, payload) == seq![0x84u8, 0x6A] + encode_utf8("Signature1"@) + encode(
            seq![DataItem::Bytes(protected_header(alg))],
        ) + seq![0x40u8] + encode(seq![DataItem::Bytes(payload)]),
{
    reveal_strlit("Signature1");
    is_ascii_chars_encode_utf8("Signature1"@);
    reveal_with_fuel(encode, 6);
    lemma_encode_one(DataItem::Bytes(protected_header(alg)));
    lemma_encode_one(DataItem::Bytes(payload));
    assert(sig_structure(alg, payload) =~= seq![0x84u8, 0x6A] + encode_utf8("Signature1"@) + encode(
        seq![DataItem::Bytes(protected_header(alg))],
    ) + seq![0x40u8] + encode(seq![DataItem::Bytes(payload)]));
}

/// A signature is good for one payload only: messages for which the same bytes are signed have the
/// same payload.
pub proof fn law_signed_data_determines_the_payload(
    alg: CoseAlgorithm,
    a: Seq<u8>,
    b: Seq<u8>,
)
    requires
        a.len() < 0x1_0000_0000_0000_0000,
        b.len() < 0x1_0000_0000_0000_0000,
        sig_structure(alg, a) == sig_structure(alg, b),
    ensures
        a == b,
{
    reveal_strlit("Signature1");
    is_ascii_chars_encode_utf8("Signature1"@);
    law_protected_headers_name_the_algorithm();
    let x = seq![
        DataItem::Elements(4),
        DataItem::Text("Signature1"@),
        DataItem::Bytes(protected_header(alg)),
        DataItem::Bytes(seq![]),
        DataItem::Bytes(a),
    ];
    let y = seq![
        DataItem::Elements(4),
        DataItem::Text("Signature1"@),
        DataItem::Bytes(protected_header(alg)),
        DataItem::Bytes(seq![]),
        DataItem::Bytes(b),
    ];
    law_encoding_determines_items(x, y);
    assert(x[4] == y[4]);
}

/// A message is written as an array of four: the protected header, an empty unprotected one, the
/// whole of the payload, and the whole of the signature.
pub proof fn law_messages_are_written_whole(
    alg: CoseAlgorithm,
    payload: Seq<u8>,
    signature: Seq<u8>,
)
    ensures
        encode(sign1_items(alg, payload, signature)) == seq![0x84u8] + encode(
            seq![DataItem::Bytes(protected_header(alg))],
        ) + seq![0xA0u8] + encode(seq![DataItem::Bytes(payload)]) + encode(
            seq![DataItem::Bytes(signature)],
        ),
{
    reveal_with_fuel(encode, 6);
    lemma_encode_one(DataItem::Bytes(protected_header(alg)));
    lemma_encode_one(DataItem::Bytes(payload));
    lemma_encode_one(DataItem::Bytes(signature));
    assert(encode(sign1_items(alg, payload, signature)) =~= seq![0x84u8] + encode(
        seq![DataItem::Bytes(protected_header(alg))],
    ) + seq![0xA0u8] + encode(seq![DataItem::Bytes(payload)]) + encode(
        seq![DataItem::Bytes(signature)],
    ));
}

} // verus!
