use omk::keymint::dice::{dice_id, measurement, pad_measurement, sha512};

#[test]
fn digests_are_placed_in_the_hash_field() {
    let mut expected = vec![7u8; 32];
    expected.extend_from_slice(&[0; 32]);
    assert_eq!(pad_measurement(&[7; 32]), expected);
    assert_eq!(pad_measurement(&[]), vec![0; 64]);
    assert_eq!(pad_measurement(&[9; 64]), vec![9; 64]);
    // What does not fit is cut off.
    assert_eq!(pad_measurement(&[9; 65]), vec![9; 64]);
}

#[test]
fn measurements_are_sha256_digests() {
    let mut expected =
        hex::decode("ba7816bf8f01cfea414140de5dae2223b00361a396177a9cb410ff61f20015ad").unwrap();
    expected.resize(64, 0);
    assert_eq!(measurement(b"abc"), expected);
}

#[test]
fn configuration_is_hashed_with_sha512() {
    assert_eq!(
        hex::encode(sha512(b"abc")),
        "ddaf35a193617abacc417349ae20413112e6fa4e89a97ea20a9eeee64b55d39a\
         2192992a274fc1a836ba3c23a3feebbd454d4423643ce80e2a9ac94fa54ca49f"
    );
}

#[test]
fn certificate_ids_are_derived_from_the_key() {
    let ids: [(&[u8], &str); 4] = [
        (&[], "0d82a894894208a48c185bef58fa480ecf025e68"),
        (&[0; 32], "38f335e8999bd57df5066ba43193433315bf26c5"),
        // The top bit of these is cleared.
        (&[1; 32], "1c9f7cd33313f38a4092fcab67ddc67f11e087c4"),
        (&[2; 32], "71fddf85c51a056f3731745cbb006fa96ce48a08"),
    ];
    for (key, id) in ids {
        assert_eq!(dice_id(key).unwrap(), id);
    }
}

#[test]
fn certificate_ids_are_positive() {
    for i in 0..=255u8 {
        let id = dice_id(&[i; 32]).unwrap();
        assert_eq!(id.len(), 40);
        assert!(matches!(id.as_bytes()[0], b'0'..=b'7'));
        assert!(id.bytes().all(|c| matches!(c, b'0'..=b'9' | b'a'..=b'f')));
    }
}
