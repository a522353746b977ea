use crypto::secp256k1::Keypair;
use crypto::secp256k1::SecretKey;

#[test]
fn secp256k1_secret_from_bytes() {
    let sk1 = SecretKey::generate().unwrap();
    let mut sk_bytes = [0; 32];
    sk_bytes.copy_from_slice(&sk1.to_bytes()[..]);
    let sk2 = SecretKey::from_bytes(&sk_bytes).unwrap();
    assert_eq!(sk1.to_bytes(), sk2.to_bytes());
}

#[test]
fn test_codec() {
    let kpair = Keypair::generate().unwrap();
    let bytes = kpair.to_bytes();
    let new_kpair = Keypair::from_bytes(&bytes);
    assert!(new_kpair.is_ok());
    let new_kpair = new_kpair.unwrap();
    assert!(kpair.public() == new_kpair.public());
}

#[test]
fn secp256k1_sign_and_verify_hash() {
    let kp = Keypair::generate().unwrap();
    let msg = b"an ordinary message";
    let sig = kp.secret().sign(msg).unwrap();
    assert!(kp.public().verify(msg, &sig));
    assert!(!kp.public().verify(b"another message", &sig));
    let mut bad = sig.clone();
    let mid = bad.len() / 2;
    bad[mid] = bad[mid].wrapping_add(1);
    assert!(!kp.public().verify(msg, &bad));
}

#[test]
fn secp256k1_from_der_extracts_scalar() {
    let scalar = [7u8; 32];
    let mut der = vec![0x30u8, 37, 0x02, 0x01, 0x01, 0x04, 32];
    der.extend_from_slice(&scalar);
    let sk = SecretKey::from_der(&der).unwrap();
    assert_eq!(sk.to_bytes(), scalar);

    let mut wrong_tag = der.clone();
    wrong_tag[5] = 0x03;
    assert!(SecretKey::from_der(&wrong_tag).is_err());
    assert!(SecretKey::from_der(&der[..10]).is_err());
}

#[test]
fn secp256k1_from_bytes_rejects_invalid_scalars() {
    assert!(SecretKey::from_bytes(&[0u8; 32]).is_err());
    assert!(SecretKey::from_bytes(&[1u8; 16]).is_err());
    assert!(SecretKey::from_bytes(&[0xFFu8; 32]).is_err());
    assert!(SecretKey::from_bytes(&[1u8; 32]).is_ok());
}

#[test]
fn secp256k1_public_decode_and_uncompressed() {
    let kp = Keypair::generate().unwrap();
    let enc = kp.public().encode();
    let pk2 = crypto::secp256k1::PublicKey::decode(&enc).unwrap();
    assert!(pk2 == *kp.public());
    let unc = pk2.encode_uncompressed().unwrap();
    assert_eq!(unc.len(), 65);
    assert_eq!(unc[0], 4);
    assert!(crypto::secp256k1::PublicKey::decode(&enc[..32]).is_err());
}
