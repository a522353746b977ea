//! The type-aware signing layer: typed digests and signatures, the three
//! per-algorithm key wrappers, and the tagged-union dispatch over them.

mod algorithm;
mod codec;
mod ed25519;
mod privkey;
mod pubkey;
mod rsa;
mod secp256k1;
mod traits;

pub use algorithm::Algorithm;
pub use codec::decode_envelope;
pub use codec::encode_envelope;
pub use codec::envelope;
pub use codec::envelope_parse;
pub use codec::le64_bytes;
pub use codec::le64_value;
pub use codec::lemma_envelope_canonical;
pub use codec::lemma_envelope_round_trip;
pub use codec::lemma_le64_canonical;
pub use ed25519::ED25519PrivateKey;
pub use ed25519::ED25519PublicKey;
pub use privkey::lemma_private_key_decode_encode;
pub use privkey::lemma_private_key_round_trip;
pub use privkey::private_payload_ok;
pub use privkey::PrivateKey;
pub use pubkey::lemma_public_key_decode_encode;
pub use pubkey::lemma_public_key_round_trip;
pub use pubkey::public_payload_ok;
pub use pubkey::PublicKey;
pub use rsa::RSAPrivateKey;
pub use rsa::RSAPublicKey;
pub use secp256k1::SECP256K1PrivateKey;
pub use secp256k1::SECP256K1PublicKey;
pub use traits::Signature;
