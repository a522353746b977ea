//! Secp256k1 (ECDSA) keys.

mod keypair;
mod secret;
pub(crate) mod provider;
mod public;

pub use keypair::Keypair;
pub use keypair::lemma_keypair_round_trip;
pub use provider::secp_pk_ok;
pub use provider::secp_pub_of;
pub use provider::secp_sig_der_of;
pub use provider::secp_sig_of;
pub use provider::secp_sk_ok;
pub use provider::secp_uncompressed_of;
pub use provider::secp_verify_der_ok;
pub use provider::secp_verify_ok;
pub use public::PublicKey;
pub use secret::ec_private_key_scalar;
pub use secret::SecretKey;
