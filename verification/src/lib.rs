//! Commit-reveal rock-paper-scissors, played by exactly two registered
//! players against an escrow ledger.
//!
//! The game advances through a fixed sequence of stages
//! (`EsperandoJugadores`, `Commit`, `Reveal`, `Fin`); each externally
//! callable operation of [`juego::Juego`] validates the stage, mutates the
//! player registry and the ledger in an all-or-nothing step, and reports an
//! event. Commitments are Blake2-256 hashes over the encoded move and a
//! caller-chosen secret nonce; a move is only accepted at reveal time when
//! it hashes to the stored commitment.

pub mod compromiso;
pub mod juego;
pub mod libro;
pub mod tipos;
