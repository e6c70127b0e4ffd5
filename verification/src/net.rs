//! The peer-to-peer protocol between the host and the client of a game.

pub mod interface;
pub mod net_utils;
pub mod p2p;
pub mod status;
