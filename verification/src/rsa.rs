//! RSA keys and their DER codecs.

mod keypair;
pub(crate) mod provider;
mod public;
mod secret;

pub use keypair::Keypair;
pub use keypair::lemma_keypair_round_trip;
pub use provider::rsa_der_ok;
pub use provider::rsa_keypair_src;
pub use provider::rsa_modulus_len;
pub use provider::rsa_pkcs8_ok;
pub use provider::rsa_pub_of;
pub use provider::rsa_sig_of;
pub use provider::rsa_verify_ok;
pub use public::lemma_x509_canonical;
pub use public::lemma_x509_round_trip;
pub use public::rsa_alg_id;
pub use public::rsa_oid;
pub use public::spki_der;
pub use public::spki_parse;
pub use public::PublicKey;
pub use secret::SecretKey;
