//! Handshake for a Bitcoin-style peer-to-peer wire protocol: message framing,
//! the version and verack messages, and the decisions of one handshake.

pub mod address;
pub mod bytes;
pub mod checksum;
pub mod config;
pub mod error;
pub mod fanout;
pub mod handshake;
pub mod header;
pub mod message;
pub mod hexstr;
pub mod verack;
pub mod version;
