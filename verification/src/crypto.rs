//! Cryptographic value types carried by the protocols: ECDSA and EdDSA
//! keys, peer identities, and hash codes.  The arithmetic itself is done
//! by outside code; these types hold the raw bytes and give them their
//! wire shape.

pub mod ecdsa;
pub mod eddsa;
pub mod hashcode;
pub mod peerid;

pub use ecdsa::EcdsaPrivateKey;
pub use ecdsa::EcdsaPublicKey;
pub use eddsa::EddsaPublicKey;
pub use hashcode::HashCode;
pub use peerid::PeerIdentity;
