use cloud_cal::sm::{
    decode, encode, pk2address, private_key_to_public_key, recover, sign, verify, SmError,
    ADDR_BYTES_LEN, SM2_PUBLIC_KEY_LEN, SM2_SIGNATURE_BYTES_LEN,
};

fn unit_pattern_key() -> Vec<u8> {
    vec![0x01u8; 32]
}

fn hello() -> Vec<u8> {
    b"hello".to_vec()
}

// Golden vectors recorded once from the linked primitives, for the private
// key of 32 bytes of 0x01 and the message "hello". Any reimplementation must
// keep reproducing them byte for byte.
fn golden_public_key() -> Vec<u8> {
    vec![
        187, 168, 120, 3, 213, 225, 39, 136, 176, 122, 145, 42, 229, 54, 142, 123, 39, 32, 189,
        25, 185, 57, 32, 189, 191, 46, 155, 98, 134, 218, 156, 78, 43, 192, 147, 131, 13, 192,
        118, 43, 142, 20, 75, 128, 174, 24, 68, 123, 27, 246, 198, 112, 185, 59, 218, 154, 128,
        121, 87, 104, 175, 90, 144, 30,
    ]
}

fn golden_address() -> Vec<u8> {
    vec![
        56, 184, 222, 42, 76, 7, 96, 206, 40, 142, 93, 136, 191, 77, 108, 107, 59, 44, 224, 160,
    ]
}

fn golden_signature() -> Vec<u8> {
    vec![
        55, 128, 68, 90, 164, 19, 144, 205, 241, 119, 106, 103, 202, 179, 193, 141, 195, 133, 103,
        223, 184, 221, 218, 80, 74, 204, 235, 86, 15, 105, 36, 48, 27, 152, 102, 16, 139, 221,
        110, 135, 177, 63, 90, 219, 9, 203, 212, 111, 198, 121, 183, 154, 229, 57, 43, 3, 138,
        244, 25, 27, 184, 250, 155, 127, 187, 168, 120, 3, 213, 225, 39, 136, 176, 122, 145, 42,
        229, 54, 142, 123, 39, 32, 189, 25, 185, 57, 32, 189, 191, 46, 155, 98, 134, 218, 156, 78,
        43, 192, 147, 131, 13, 192, 118, 43, 142, 20, 75, 128, 174, 24, 68, 123, 27, 246, 198,
        112, 185, 59, 218, 154, 128, 121, 87, 104, 175, 90, 144, 30,
    ]
}

#[test]
fn golden_public_key_and_address() {
    let k = unit_pattern_key();
    let pk = private_key_to_public_key(&k).unwrap();
    assert_eq!(pk, golden_public_key());
    let addr = pk2address(&pk).unwrap();
    assert_eq!(addr, golden_address());
    // The full scenario: sign "hello" with k and authenticate it against the
    // derived address.
    let msg = hello();
    let sig = sign(&pk, &k, &msg).unwrap();
    assert_eq!(verify(&addr, &sig, &msg), Ok(()));
}

#[test]
fn known_answer_signature_verifies() {
    // A triple recorded from the reference primitive: it must keep verifying
    // byte-for-byte, whatever produced it.
    let sig = golden_signature();
    let msg = hello();
    let addr = golden_address();
    assert_eq!(verify(&addr, &sig, &msg), Ok(()));
    assert_eq!(recover(&sig, &msg).unwrap(), addr);
    let (_, _, embedded) = decode(&sig).unwrap();
    assert_eq!(embedded, golden_public_key());
}

#[test]
fn derive_public_key_is_deterministic_and_64_bytes() {
    let k = unit_pattern_key();
    let first = private_key_to_public_key(&k).unwrap();
    let second = private_key_to_public_key(&k).unwrap();
    assert_eq!(first.len(), SM2_PUBLIC_KEY_LEN);
    assert_eq!(first, second);
}

#[test]
fn derive_address_matches_trailing_hash_bytes() {
    let k = unit_pattern_key();
    let pk = private_key_to_public_key(&k).unwrap();
    let addr = pk2address(&pk).unwrap();
    assert_eq!(addr.len(), ADDR_BYTES_LEN);
    let digest = libsm::sm3::hash::Sm3Hash::new(&pk).get_hash();
    assert_eq!(addr.as_slice(), &digest[12..32]);
    let again = pk2address(&pk).unwrap();
    assert_eq!(addr, again);
}

#[test]
fn pk2address_rejects_wrong_length() {
    let short = vec![0xabu8; 63];
    assert_eq!(pk2address(&short), Err(SmError::InvalidInputLength));
    let long = vec![0xabu8; 65];
    assert_eq!(pk2address(&long), Err(SmError::InvalidInputLength));
}

#[test]
fn round_trip_sign_verify() {
    let k = unit_pattern_key();
    let pk = private_key_to_public_key(&k).unwrap();
    let addr = pk2address(&pk).unwrap();
    let msg = hello();
    let sig = sign(&pk, &k, &msg).unwrap();
    assert_eq!(sig.len(), SM2_SIGNATURE_BYTES_LEN);
    assert_eq!(verify(&addr, &sig, &msg), Ok(()));
    assert_eq!(recover(&sig, &msg).unwrap(), addr);
}

#[test]
fn mismatched_key_pair_fails_at_verify_not_at_sign() {
    let k1 = unit_pattern_key();
    let k2 = vec![0x02u8; 32];
    let pk2 = private_key_to_public_key(&k2).unwrap();
    let msg = hello();
    // Signing with someone else's public key embedded is not rejected here...
    let sig = sign(&pk2, &k1, &msg).unwrap();
    // ...but the blob never verifies: the embedded key did not sign.
    let addr2 = pk2address(&pk2).unwrap();
    assert_eq!(
        verify(&addr2, &sig, &msg),
        Err(SmError::SignatureVerificationFailed)
    );
}

#[test]
fn tampered_message_fails() {
    let k = unit_pattern_key();
    let pk = private_key_to_public_key(&k).unwrap();
    let addr = pk2address(&pk).unwrap();
    let msg = hello();
    let sig = sign(&pk, &k, &msg).unwrap();
    let mut bad = msg.clone();
    bad[0] ^= 0x01;
    assert_eq!(
        verify(&addr, &sig, &bad),
        Err(SmError::SignatureVerificationFailed)
    );
}

#[test]
fn tampered_signature_fails() {
    let k = unit_pattern_key();
    let pk = private_key_to_public_key(&k).unwrap();
    let addr = pk2address(&pk).unwrap();
    let msg = hello();
    let sig = sign(&pk, &k, &msg).unwrap();
    // A flipped bit in r, in s, and in the embedded key each break it.
    for pos in [0usize, 40, 100] {
        let mut bad = sig.clone();
        bad[pos] ^= 0x80;
        assert!(verify(&addr, &sig, &msg).is_ok());
        assert!(verify(&addr, &bad, &msg).is_err());
    }
}

#[test]
fn substituted_embedded_key_fails() {
    let k1 = unit_pattern_key();
    let pk1 = private_key_to_public_key(&k1).unwrap();
    let addr1 = pk2address(&pk1).unwrap();
    let k2 = vec![0x02u8; 32];
    let pk2 = private_key_to_public_key(&k2).unwrap();
    let msg = hello();
    let sig = sign(&pk1, &k1, &msg).unwrap();
    let mut swapped = sig.clone();
    swapped[64..].copy_from_slice(&pk2);
    // Whatever else holds, a foreign embedded key cannot verify against addr1.
    assert!(verify(&addr1, &swapped, &msg).is_err());
}

#[test]
fn length_guards_on_decode_and_verify() {
    let addr = vec![0u8; ADDR_BYTES_LEN];
    let msg = hello();
    for len in [127usize, 129] {
        let blob = vec![0x55u8; len];
        assert_eq!(decode(&blob), Err(SmError::InvalidSignatureLength));
        assert_eq!(
            verify(&addr, &blob, &msg),
            Err(SmError::InvalidSignatureLength)
        );
    }
}

#[test]
fn codec_round_trip_and_offsets() {
    let r: Vec<u8> = (0u8..32).collect();
    let s: Vec<u8> = (32u8..64).collect();
    let pk: Vec<u8> = (64u8..128).collect();
    let blob = encode(&r, &s, &pk);
    assert_eq!(blob.len(), SM2_SIGNATURE_BYTES_LEN);
    let expected: Vec<u8> = (0u8..128).collect();
    assert_eq!(blob, expected);
    let (r2, s2, pk2) = decode(&blob).unwrap();
    assert_eq!(r2, r);
    assert_eq!(s2, s);
    assert_eq!(pk2, pk);
}

#[test]
fn invalid_private_keys_are_rejected() {
    // The zero scalar has no public point.
    let zero = vec![0u8; 32];
    assert_eq!(
        private_key_to_public_key(&zero),
        Err(SmError::InvalidPrivateKey)
    );
    // A scalar longer than the curve order's encoding is rejected outright.
    let long = vec![0x01u8; 33];
    assert_eq!(
        private_key_to_public_key(&long),
        Err(SmError::InvalidPrivateKey)
    );
    let pk = private_key_to_public_key(&unit_pattern_key()).unwrap();
    assert_eq!(sign(&pk, &zero, &hello()), Err(SmError::InvalidPrivateKey));
    // The group order itself is congruent to zero and owns no public point.
    let order: Vec<u8> = vec![
        0xff, 0xff, 0xff, 0xfe, 0xff, 0xff, 0xff, 0xff, 0xff, 0xff, 0xff, 0xff, 0xff, 0xff, 0xff,
        0xff, 0x72, 0x03, 0xdf, 0x6b, 0x21, 0xc6, 0x05, 0x2b, 0x53, 0xbb, 0xf4, 0x09, 0x39, 0xd5,
        0x41, 0x23,
    ];
    assert_eq!(
        private_key_to_public_key(&order),
        Err(SmError::InvalidPrivateKey)
    );
    // Order minus one has a public point but cannot sign: its signing
    // denominator d + 1 vanishes.
    let mut near_order = order.clone();
    near_order[31] = 0x22;
    let pk_near = private_key_to_public_key(&near_order).unwrap();
    assert_eq!(pk_near.len(), SM2_PUBLIC_KEY_LEN);
    assert_eq!(
        sign(&pk_near, &near_order, &hello()),
        Err(SmError::InvalidPrivateKey)
    );
}

#[test]
fn verify_against_zero_address_is_a_mismatch() {
    let k = unit_pattern_key();
    let pk = private_key_to_public_key(&k).unwrap();
    let msg = hello();
    let sig = sign(&pk, &k, &msg).unwrap();
    let zero_addr = vec![0u8; ADDR_BYTES_LEN];
    assert_eq!(
        verify(&zero_addr, &sig, &msg),
        Err(SmError::AddressMismatch)
    );
}
