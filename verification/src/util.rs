//! Shared utilities: byte-level serialization, the message codec, the wire
//! type registry, configuration files, strings, and time quantities.

pub mod c_strings;
pub mod config;
pub mod hello;
pub mod io;
pub mod message;
pub mod message_type;
pub mod peerid;
pub mod serial;
pub mod strings;
pub mod time;
