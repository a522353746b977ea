use crypto::gen::Keypair;
use crypto::NetworkObject;

#[test]
fn hash_is_deterministic() {
    let h1 = crypto::hash::Hash::<Vec<u8>>::do_hash(b"some canonical bytes");
    let h2 = crypto::hash::Hash::<Vec<u8>>::do_hash(b"some canonical bytes");
    assert!(h1 == h2);
    assert_eq!(h1.to_vec(), h2.to_vec());
    let h3 = crypto::hash::Hash::<Vec<u8>>::do_hash(b"different bytes");
    assert!(h1 != h3);
}

#[test]
fn hash_matches_sha256() {
    let expected: [u8; 32] = [
        0xba, 0x78, 0x16, 0xbf, 0x8f, 0x01, 0xcf, 0xea, 0x41, 0x41, 0x40, 0xde, 0x5d, 0xae,
        0x22, 0x23, 0xb0, 0x03, 0x61, 0xa3, 0x96, 0x17, 0x7a, 0x9c, 0xb4, 0x10, 0xff, 0x61,
        0xf2, 0x00, 0x15, 0xad,
    ];
    let h = crypto::hash::Hash::<Vec<u8>>::do_hash(b"abc");
    assert_eq!(h.to_vec(), expected.to_vec());
    assert_eq!(h.as_bytes(), &expected[..]);
}

#[test]
fn hash_orders_and_hashes_by_bytes() {
    let h1 = crypto::hash::Hash::<Vec<u8>>::do_hash(b"abc");
    let h2 = crypto::hash::Hash::<Vec<u8>>::do_hash(b"abc");
    let h3 = crypto::hash::Hash::<Vec<u8>>::do_hash(b"abd");
    assert!(!(h1 < h2) && !(h2 < h1));
    assert!((h1 < h3) ^ (h3 < h1));
    let mut set = std::collections::BTreeSet::new();
    set.insert(h1.clone());
    set.insert(h2);
    set.insert(h3);
    assert_eq!(set.len(), 2);
}

#[test]
fn ser_and_hash_uses_canonical_bytes() {
    let data: Vec<u8> = vec![1, 2, 3];
    let h1 = crypto::hash::Hash::ser_and_hash(&data).unwrap();
    let h2 = crypto::hash::Hash::<Vec<u8>>::do_hash(&data.to_bytes().unwrap());
    assert!(h1 == h2);
}

#[test]
fn network_object_round_trip_for_vec() {
    let data: Vec<u8> = vec![9, 8, 7, 6];
    let bytes = data.to_bytes().unwrap();
    assert_eq!(bytes, data);
    let back = <Vec<u8> as NetworkObject>::from_bytes(&bytes).unwrap();
    assert_eq!(back, data);
}

#[test]
fn gen_dispatch_sign_verify_each_algorithm() {
    let msg = b"dispatch layer message";
    let keys = [
        Keypair::generate_ed25519().unwrap(),
        Keypair::generate_secp256k1().unwrap(),
    ];
    for kp in keys {
        let sig = kp.private().sign(msg).unwrap();
        assert!(kp.public().verify(msg, &sig));
        assert!(!kp.public().verify(b"tampered", &sig));
    }
}

#[test]
fn gen_rsa_from_pkcs8_and_secp_from_der() {
    let scalar = [3u8; 32];
    let mut der = vec![0x30u8, 37, 0x02, 0x01, 0x01, 0x04, 32];
    der.extend_from_slice(&scalar);
    let kp = Keypair::secp256k1_from_der(&der).unwrap();
    let msg = b"via ECPrivateKey";
    let sig = kp.private().sign(msg).unwrap();
    assert!(kp.public().verify(msg, &sig));

    assert!(Keypair::secp256k1_from_der(&der[..20]).is_err());
}
