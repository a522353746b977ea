use core::str::FromStr;
use crypto::sig::Algorithm;
use crypto::sig::PrivateKey;
use crypto::sig::PublicKey;

fn test_keypair(key: PrivateKey) {
    let data: Vec<u8> = vec![1; 1024 * 1024];
    let sig = key.sign(&data).unwrap();

    let pub_key = key.public().unwrap();
    pub_key.verify(&data, &sig).unwrap();
}

fn test_codec_for(key: PrivateKey) {
    let pub_key = key.public().unwrap();
    let serialized = pub_key.to_bytes();
    let new_pub_key = PublicKey::from_bytes(&serialized).unwrap();
    assert!(new_pub_key == pub_key);

    let serialized = key.to_bytes();
    let new_key = PrivateKey::from_bytes(&serialized).unwrap();
    let serialized2 = new_key.to_bytes();
    assert_eq!(serialized2, serialized);
}

#[test]
fn test_rsa() {
    let alg = Algorithm::RSA;
    let key_pair = alg.generate().unwrap();
    test_keypair(key_pair);
}

#[test]
fn test_ed25519() {
    let alg = Algorithm::ED25519;
    let key_pair = alg.generate().unwrap();
    test_keypair(key_pair);
}

#[test]
fn test_secp256k1() {
    let alg = Algorithm::SECP256K1;
    let key_pair = alg.generate().unwrap();
    test_keypair(key_pair);
}

#[test]
fn test_all() {
    for algo in Algorithm::values() {
        test_keypair(algo.generate().unwrap());
    }
}

#[test]
fn test_all_codec() {
    for algo in Algorithm::values() {
        test_codec_for(algo.generate().unwrap());
    }
}

#[test]
fn tagged_envelope_rsa_round_trip() {
    let key = Algorithm::RSA.generate().unwrap();
    let encoded = key.to_bytes();
    let decoded = PrivateKey::from_bytes(&encoded).unwrap();
    assert!(matches!(decoded, PrivateKey::RSA(_)));
    let pk1 = key.public().unwrap();
    let pk2 = decoded.public().unwrap();
    assert!(pk1 == pk2);
}

#[test]
fn tagged_envelope_unknown_algorithm() {
    let bogus = crypto::sig::encode_envelope(9, &[1, 2, 3]);
    assert!(matches!(
        PrivateKey::from_bytes(&bogus),
        Err(crypto::DecodingError::UnknownAlgorithm(9))
    ));
    assert!(matches!(
        PublicKey::from_bytes(&bogus),
        Err(crypto::DecodingError::UnknownAlgorithm(9))
    ));
}

#[test]
fn tagged_envelope_malformed() {
    assert!(matches!(
        PrivateKey::from_bytes(&[1, 2]),
        Err(crypto::DecodingError::Truncated)
    ));
    let mut bad_len = crypto::sig::encode_envelope(1, &[1, 2, 3]);
    let n = bad_len.len();
    bad_len.truncate(n - 1);
    assert!(matches!(
        PrivateKey::from_bytes(&bad_len),
        Err(crypto::DecodingError::BadLength)
    ));
}

#[test]
fn sign_is_tied_to_the_message() {
    for algo in [Algorithm::ED25519, Algorithm::SECP256K1] {
        let key = algo.generate().unwrap();
        let data: Vec<u8> = vec![5; 64];
        let other: Vec<u8> = vec![6; 64];
        let sig = key.sign(&data).unwrap();
        let pub_key = key.public().unwrap();
        assert!(pub_key.verify(&data, &sig).is_ok());
        assert!(pub_key.verify(&other, &sig).is_err());
    }
}

#[test]
fn algorithm_sizes() {
    assert_eq!(Algorithm::RSA.public_key_size(), 64);
    assert_eq!(Algorithm::RSA.private_key_size(), 64);
    assert_eq!(Algorithm::ED25519.public_key_size(), 32);
    assert_eq!(Algorithm::ED25519.private_key_size(), 64);
    assert_eq!(Algorithm::SECP256K1.public_key_size(), 33);
    assert_eq!(Algorithm::SECP256K1.private_key_size(), 32);
}

#[test]
fn algorithm_from_str() {
    assert_eq!(Algorithm::from_str("RSA"), Ok(Algorithm::RSA));
    assert_eq!(Algorithm::from_str("ED25519"), Ok(Algorithm::ED25519));
    assert_eq!(Algorithm::from_str("SECP256K1"), Ok(Algorithm::SECP256K1));
    assert!(Algorithm::from_str("DSA").is_err());
    assert_eq!(
        crypto::Algorithm::from_str("RSA"),
        Ok(crypto::Algorithm::RSA)
    );
    assert!(crypto::Algorithm::from_str("rsa").is_err());
}
