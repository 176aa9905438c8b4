//! Client-side implementation of the IPC protocol spoken by local GNUnet
//! services: the length-prefixed, type-tagged message framing, the typed
//! message codecs, and the request/response correlation layer shared by
//! every service client.

pub mod configuration;
pub mod crypto;
pub mod gns;
pub mod hello;
pub mod ll;
pub mod peerinfo;
pub mod service;
pub mod transport;
pub mod util;
