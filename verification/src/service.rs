//! The parts of the IPC protocol that are common to every service client:
//! message framing over the connection's byte stream, the request
//! correlation layer, and the typed messages of the individual services.

pub mod cadet;
pub mod connection;
pub mod gns;
pub mod identity;
pub mod peerinfo;
pub mod pending;
pub mod transport;

pub use crate::util::message::MessageTrait;
