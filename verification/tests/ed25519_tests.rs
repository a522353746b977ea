use crypto::ed25519::Keypair;

fn eq_keypairs(kp1: &Keypair, kp2: &Keypair) -> bool {
    kp1.public() == kp2.public() && kp1.secret().to_bytes()[..32] == kp2.secret().to_bytes()[..32]
}

#[test]
fn ed25519_keypair_encode_decode() {
    for _ in 0..10 {
        let kp1 = Keypair::generate().unwrap();
        let kp1_enc = kp1.to_bytes();
        let kp2 = Keypair::from_bytes(&kp1_enc).unwrap();
        assert!(eq_keypairs(&kp1, &kp2));
    }
}

#[test]
fn ed25519_signature() {
    let kp = Keypair::generate().unwrap();
    let pk = kp.public();
    let sk = kp.secret();

    let msg = "hello world".as_bytes();
    let sig = sk.sign(msg).unwrap();
    assert!(pk.verify(msg, &sig));

    let mut invalid_sig = sig.clone();
    invalid_sig[3..6].copy_from_slice(&[10, 23, 42]);
    assert!(!pk.verify(msg, &invalid_sig));

    let invalid_msg = "h3ll0 w0rld".as_bytes();
    assert!(!pk.verify(invalid_msg, &sig));
}

#[test]
fn ed25519_public_key_decode_rejects_garbage() {
    assert!(crypto::ed25519::PublicKey::from_bytes(&[1, 2, 3]).is_err());
    let kp = Keypair::generate().unwrap();
    let pk_bytes = kp.public().to_bytes();
    let pk2 = crypto::ed25519::PublicKey::from_bytes(&pk_bytes).unwrap();
    assert!(pk2 == kp.public());
}

#[test]
fn ed25519_derived_public_differs_from_seed() {
    let kp = Keypair::generate().unwrap();
    let enc = kp.to_bytes();
    assert_eq!(enc.len(), 64);
    assert_ne!(&enc[..32], &enc[32..]);
}
