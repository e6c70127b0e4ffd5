//! Core of a two-player networked checkers game: the move engine on a
//! 32-square board and the peer-to-peer protocol that keeps two boards in step.

pub mod game;
pub mod net;
