//! A type-safe, algorithm-agnostic signing layer.
//!
//! Three signature schemes (RSA, Ed25519, secp256k1-ECDSA) stand behind one
//! API.  Digests and signatures carry a type-level tag binding them to the
//! object type they were produced from, and all key material round-trips
//! through canonical byte encodings.

pub mod crypto;
pub mod gen;
pub mod ed25519;
mod entropy;
pub mod der;
pub mod errors;
pub mod hash;
pub mod network_object;
pub mod rsa;
pub mod sig;
pub mod secp256k1;
mod util;

pub use crypto::Algorithm;
pub use errors::DecodingError;
pub use errors::SigningError;
pub use network_object::NetworkObject;
pub use gen::Keypair;
pub use gen::PublicKey;
pub use gen::SecretKey;
