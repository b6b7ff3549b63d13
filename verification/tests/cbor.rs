use ciborium::value::Value;
use omk::cbor::{serialize_cbor, FieldMap};
use omk::cose::{CoseAlgorithm, CoseKey, KeyParam, KeyType};
use omk::error::{CborError, Error};

fn hex_of(value: Value) -> String {
    hex::encode(serialize_cbor(&value).unwrap())
}

#[test]
fn integers_have_the_shortest_head() {
    assert_eq!(hex_of(Value::from(0)), "00");
    assert_eq!(hex_of(Value::from(23)), "17");
    assert_eq!(hex_of(Value::from(24)), "1818");
    assert_eq!(hex_of(Value::from(255)), "18ff");
    assert_eq!(hex_of(Value::from(256)), "190100");
    assert_eq!(hex_of(Value::from(65535)), "19ffff");
    assert_eq!(hex_of(Value::from(65536)), "1a00010000");
    assert_eq!(hex_of(Value::from(4294967295u64)), "1affffffff");
    assert_eq!(hex_of(Value::from(4294967296u64)), "1b0000000100000000");
    assert_eq!(hex_of(Value::from(u64::MAX)), "1bffffffffffffffff");
    assert_eq!(hex_of(Value::from(-1)), "20");
    assert_eq!(hex_of(Value::from(-24)), "37");
    assert_eq!(hex_of(Value::from(-25)), "3818");
    assert_eq!(hex_of(Value::from(-4670545)), "3a00474450");
    assert_eq!(hex_of(Value::from(i64::MIN)), "3b7fffffffffffffff");
}

#[test]
fn containers_are_written_with_their_length() {
    assert_eq!(hex_of(Value::Bytes(vec![])), "40");
    assert_eq!(hex_of(Value::Bytes(vec![1, 2])), "420102");
    assert_eq!(hex_of(Value::Text("é".to_string())), "62c3a9");
    assert_eq!(
        hex_of(Value::Array(vec![Value::from(1), Value::Array(vec![])])),
        "820180"
    );
    assert_eq!(
        hex_of(Value::Map(vec![(Value::from(1), Value::Map(vec![]))])),
        "a101a0"
    );
    let long = hex_of(Value::Bytes(vec![7; 24]));
    assert_eq!(long, format!("5818{}", "07".repeat(24)));
}

#[test]
fn field_maps_keep_the_order_of_their_fields() {
    let data = FieldMap::new()
        .text(-70002, "AVB")
        .uint(-70003, 16)
        .uint(-70005, 202506)
        .serialize()
        .unwrap();
    assert_eq!(
        hex::encode(data),
        "a33a00011171634156423a00011172103a000111741a0003170a"
    );
    let data = FieldMap::new().bytes(2, vec![1]).bytes(1, vec![]).serialize();
    assert_eq!(hex::encode(data.unwrap()), "a20241010140");
    assert_eq!(FieldMap::new().serialize().unwrap(), vec![0xA0]);
}

#[test]
fn keys_are_written_as_cose_maps() {
    let okp = CoseKey {
        kty: KeyType::Okp,
        alg: Some(CoseAlgorithm::EdDSA),
        params: vec![
            (-1, KeyParam::Int(6)),
            (-2, KeyParam::Bytes(vec![5; 32])),
        ],
    };
    assert_eq!(
        hex_of(okp.to_cbor_value().unwrap()),
        format!("a4010103272006215820{}", "05".repeat(32))
    );
    let ec2 = CoseKey {
        kty: KeyType::Ec2,
        alg: Some(CoseAlgorithm::ES384),
        params: vec![(-1, KeyParam::Int(2))],
    };
    assert_eq!(hex_of(ec2.to_cbor_value().unwrap()), "a301020338222002");
    let bare = CoseKey {
        kty: KeyType::Ec2,
        alg: None,
        params: vec![],
    };
    assert_eq!(hex_of(bare.to_cbor_value().unwrap()), "a10102");
    let es256 = CoseKey {
        kty: KeyType::Ec2,
        alg: Some(CoseAlgorithm::ES256),
        params: vec![],
    };
    assert_eq!(hex_of(es256.to_cbor_value().unwrap()), "a201020326");
}

#[test]
fn keys_with_a_repeated_label_are_refused() {
    let key = CoseKey {
        kty: KeyType::Okp,
        alg: None,
        params: vec![
            (-1, KeyParam::Int(6)),
            (-2, KeyParam::Int(6)),
            (-1, KeyParam::Int(7)),
        ],
    };
    assert!(matches!(
        key.to_cbor_value(),
        Err(Error::Cbor(CborError::DuplicateMapKey))
    ));
}

#[test]
fn different_values_have_different_encodings() {
    let values = [
        Value::from(0),
        Value::from(-1),
        Value::Bytes(vec![]),
        Value::Bytes(vec![0]),
        Value::Text(String::new()),
        Value::Text("\0".to_string()),
        Value::Array(vec![]),
        Value::Array(vec![Value::from(0)]),
        Value::Map(vec![]),
        Value::Map(vec![(Value::from(0), Value::from(0))]),
    ];
    for (i, a) in values.iter().enumerate() {
        for b in &values[i + 1..] {
            assert_ne!(serialize_cbor(a).unwrap(), serialize_cbor(b).unwrap());
        }
    }
    let ab = FieldMap::new().uint(1, 2).uint(3, 4).serialize().unwrap();
    let ba = FieldMap::new().uint(3, 4).uint(1, 2).serialize().unwrap();
    assert_ne!(ab, ba);
}
