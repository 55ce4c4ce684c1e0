//! The game's data model: stages, moves, players, winners, errors and
//! events.

use vstd::prelude::*;

verus! {

/// How many players have completed the current stage's action.
#[derive(Clone, Copy, Debug, PartialEq, Eq, Structural)]
pub enum CantidadDeJugadores {
    Cero,
    Uno,
}

/// The phase of a single game. The counter inside the first three variants
/// is the number of players that already performed the stage's action.
#[derive(Clone, Copy, Debug, PartialEq, Eq, Structural)]
pub enum Etapa {
    EsperandoJugadores(CantidadDeJugadores),
    Commit(CantidadDeJugadores),
    Reveal(CantidadDeJugadores),
    Fin,
}

impl Etapa {
    /// The fixed forward-only stage sequence; `Fin` is terminal.
    pub open spec fn siguiente(self) -> Etapa {
        match self {
            Etapa::EsperandoJugadores(CantidadDeJugadores::Cero) => Etapa::EsperandoJugadores(
                CantidadDeJugadores::Uno,
            ),
            Etapa::EsperandoJugadores(CantidadDeJugadores::Uno) => Etapa::Commit(
                CantidadDeJugadores::Cero,
            ),
            Etapa::Commit(CantidadDeJugadores::Cero) => Etapa::Commit(CantidadDeJugadores::Uno),
            Etapa::Commit(CantidadDeJugadores::Uno) => Etapa::Reveal(CantidadDeJugadores::Cero),
            Etapa::Reveal(CantidadDeJugadores::Cero) => Etapa::Reveal(CantidadDeJugadores::Uno),
            Etapa::Reveal(CantidadDeJugadores::Uno) => Etapa::Fin,
            Etapa::Fin => Etapa::Fin,
        }
    }

    /// Advances to the next stage of the game; a no-op once the stage is
    /// `Etapa::Fin`.
    pub fn next(&mut self)
        ensures
            *final(self) == old(self).siguiente(),
    {
        *self = match *self {
            Etapa::EsperandoJugadores(CantidadDeJugadores::Cero) => Etapa::EsperandoJugadores(
                CantidadDeJugadores::Uno,
            ),
            Etapa::EsperandoJugadores(CantidadDeJugadores::Uno) => Etapa::Commit(
                CantidadDeJugadores::Cero,
            ),
            Etapa::Commit(CantidadDeJugadores::Cero) => Etapa::Commit(CantidadDeJugadores::Uno),
            Etapa::Commit(CantidadDeJugadores::Uno) => Etapa::Reveal(CantidadDeJugadores::Cero),
            Etapa::Reveal(CantidadDeJugadores::Cero) => Etapa::Reveal(CantidadDeJugadores::Uno),
            Etapa::Reveal(CantidadDeJugadores::Uno) => Etapa::Fin,
            Etapa::Fin => Etapa::Fin,
        };
    }
}

impl Default for Etapa {
    /// A fresh game waits for its first player.
    fn default() -> (r: Self)
        ensures
            r == Etapa::EsperandoJugadores(CantidadDeJugadores::Cero),
    {
        Etapa::EsperandoJugadores(CantidadDeJugadores::Cero)
    }
}

/// A move of rock-paper-scissors.
#[derive(Clone, Copy, Debug, PartialEq, Eq, Structural)]
pub enum Jugada {
    Piedra,
    Papel,
    Tijera,
}

/// One registered player: the account, the commitment hash once committed,
/// and the move once it has been revealed and verified.
#[derive(Clone, Copy, Debug, PartialEq, Eq)]
pub struct Jugador {
    pub cuenta: u64,
    pub compromiso: Option<[u8; 32]>,
    pub jugada_revelada: Option<Jugada>,
}

/// The outcome of comparing the two revealed moves, by registration order.
#[derive(Clone, Copy, Debug, PartialEq, Eq, Structural)]
pub enum Ganador {
    Primero,
    Segundo,
    Empate,
}

/// Why an operation rejected the whole call; no error leaves any state
/// change behind.
#[derive(Clone, Copy, Debug, PartialEq, Eq, Structural)]
pub enum Error {
    /// The account is already registered and may not register again.
    YaRegistrado,
    /// The player already committed to a move.
    YaComprometido,
    /// The player already revealed their move.
    YaRevelado,
    /// The operation is not permitted in the current stage.
    EtapaIncorrecta,
    /// The caller of commit or reveal is not a registered player.
    NoEsJugador,
    /// The revealed move and nonce do not hash to the stored commitment.
    HashIncorrecto,
    /// The ledger refused a transfer; the call left all funds untouched.
    TransferenciaFallida,
}

/// What an accepted operation announces to outside observers.
#[derive(Clone, Copy, Debug, PartialEq, Eq)]
pub enum Event {
    /// The account registered to play.
    Registrado { quien: u64 },
    /// The player committed to a move.
    Comprometido { quien: u64, hash: [u8; 32] },
    /// The player revealed their move.
    Revelado { quien: u64, jugada: Jugada },
    /// The game finished; `None` announces a tie.
    Fin { ganador: Option<u64> },
}

} // verus!
