//! Ed25519 keys.

mod keypair;
pub(crate) mod provider;
mod public;
mod secret;

pub use keypair::Keypair;
pub use keypair::lemma_keypair_decode_encode;
pub use keypair::lemma_keypair_round_trip;
pub use provider::ed25519_pk_ok;
pub use provider::ed25519_pub_of;
pub use provider::ed25519_sig_of;
pub use provider::ed25519_verify_ok;
pub use public::PublicKey;
pub use secret::SecretKey;
