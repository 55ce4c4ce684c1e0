//! The game controller: one value per game instance, four externally
//! callable operations, each an all-or-nothing check-validate-mutate step
//! against the registry and the ledger.

use vstd::prelude::*;
use crate::compromiso::{compromiso_de, verificar};
use crate::libro::{puede_transferir, tras_transferencia, Libro};
use crate::tipos::{CantidadDeJugadores, Error, Etapa, Event, Ganador, Jugada, Jugador};

verus! {

/// The number of players a stage counter stands for.
pub open spec fn cantidad_como_int(n: CantidadDeJugadores) -> int {
    match n {
        CantidadDeJugadores::Cero => 0,
        CantidadDeJugadores::Uno => 1,
    }
}

/// The standard win table, by registration order: paper beats rock, rock
/// beats scissors, scissors beats paper; equal moves tie.
pub open spec fn ganador_de(a: Jugada, b: Jugada) -> Ganador {
    match (a, b) {
        (Jugada::Papel, Jugada::Piedra) => Ganador::Primero,
        (Jugada::Piedra, Jugada::Tijera) => Ganador::Primero,
        (Jugada::Tijera, Jugada::Papel) => Ganador::Primero,
        (Jugada::Piedra, Jugada::Papel) => Ganador::Segundo,
        (Jugada::Tijera, Jugada::Piedra) => Ganador::Segundo,
        (Jugada::Papel, Jugada::Tijera) => Ganador::Segundo,
        _ => Ganador::Empate,
    }
}

/// Decides the winner of the two revealed moves, in registration order.
pub fn determinar_ganador(a: Jugada, b: Jugada) -> (r: Ganador)
    ensures
        r == ganador_de(a, b),
{
    match (a, b) {
        (Jugada::Papel, Jugada::Piedra) => Ganador::Primero,
        (Jugada::Piedra, Jugada::Tijera) => Ganador::Primero,
        (Jugada::Tijera, Jugada::Papel) => Ganador::Primero,
        (Jugada::Piedra, Jugada::Papel) => Ganador::Segundo,
        (Jugada::Tijera, Jugada::Piedra) => Ganador::Segundo,
        (Jugada::Papel, Jugada::Tijera) => Ganador::Segundo,
        _ => Ganador::Empate,
    }
}

/// The same table seen from the other chair.
pub open spec fn espejo(g: Ganador) -> Ganador {
    match g {
        Ganador::Primero => Ganador::Segundo,
        Ganador::Segundo => Ganador::Primero,
        Ganador::Empate => Ganador::Empate,
    }
}

/// Law: the win table is total and symmetric under swapping the players;
/// whoever wins a pairing loses its mirror image, and ties mirror to ties.
pub proof fn lema_ganador_simetrico(a: Jugada, b: Jugada)
    ensures
        ganador_de(a, b) == espejo(ganador_de(b, a)),
{
}

/// A revealed move is only ever stored together with a commitment that
/// some nonce makes it hash to.
pub open spec fn revelacion_verificada(j: Jugador) -> bool {
    j.jugada_revelada.is_some() ==> {
        &&& j.compromiso.is_some()
        &&& exists|n: u128|
            j.compromiso.unwrap()@ == #[trigger] compromiso_de(j.jugada_revelada.unwrap(), n)
    }
}

/// The disbursable pot: the escrow account's balance minus the retained
/// minimum, never negative.
pub open spec fn pot_de(m: Map<u64, u128>, cuenta: u64, minimo: u128) -> u128 {
    if m[cuenta] >= minimo {
        (m[cuenta] - minimo) as u128
    } else {
        0
    }
}

/// Whether `a` and `b` are the same game state: stage, players and
/// configuration all unchanged.
pub open spec fn mismo_juego(a: Juego, b: Juego) -> bool {
    &&& a.etapa == b.etapa
    &&& a.jugadores@ == b.jugadores@
    &&& a.cuenta_juego == b.cuenta_juego
    &&& a.apuesta == b.apuesta
}

/// One game instance: the stage, the ordered registry of at most two
/// players, the escrow account the wagers sit in, and the fixed wager.
pub struct Juego {
    pub etapa: Etapa,
    pub jugadores: Vec<Jugador>,
    pub cuenta_juego: u64,
    pub apuesta: u128,
}

impl Juego {
    /// Whether `quien` is one of the registered players.
    pub open spec fn es_jugador(self, quien: u64) -> bool {
        exists|i: int|
            0 <= i < self.jugadores@.len() && (#[trigger] self.jugadores@[i]).cuenta == quien
    }

    /// The position of `quien` in the registry, for a registered player.
    pub open spec fn indice_de(self, quien: u64) -> int {
        if self.jugadores@.len() >= 1 && self.jugadores@[0].cuenta == quien {
            0
        } else {
            1
        }
    }

    /// The game's global invariant: at most two players with distinct
    /// accounts, every stored reveal backed by its commitment, and the
    /// registry exactly as far along as the stage says — the stage
    /// counter counts the players that completed the stage's action.
    pub open spec fn bien_formado(self) -> bool {
        let js = self.jugadores@;
        &&& js.len() <= 2
        &&& (js.len() == 2 ==> js[0].cuenta != js[1].cuenta)
        &&& (forall|i: int| 0 <= i < js.len() ==> revelacion_verificada(#[trigger] js[i]))
        &&& match self.etapa {
            Etapa::EsperandoJugadores(n) => {
                &&& js.len() == cantidad_como_int(n)
                &&& forall|i: int|
                    0 <= i < js.len() ==> (#[trigger] js[i]).compromiso.is_none()
                        && js[i].jugada_revelada.is_none()
            },
            Etapa::Commit(n) => {
                &&& js.len() == 2
                &&& js[0].jugada_revelada.is_none()
                &&& js[1].jugada_revelada.is_none()
                &&& match n {
                    CantidadDeJugadores::Cero => js[0].compromiso.is_none()
                        && js[1].compromiso.is_none(),
                    CantidadDeJugadores::Uno => js[0].compromiso.is_some()
                        != js[1].compromiso.is_some(),
                }
            },
            Etapa::Reveal(n) => {
                &&& js.len() == 2
                &&& js[0].compromiso.is_some()
                &&& js[1].compromiso.is_some()
                &&& match n {
                    CantidadDeJugadores::Cero => js[0].jugada_revelada.is_none()
                        && js[1].jugada_revelada.is_none(),
                    CantidadDeJugadores::Uno => js[0].jugada_revelada.is_some()
                        != js[1].jugada_revelada.is_some(),
                }
            },
            Etapa::Fin => {
                &&& js.len() == 2
                &&& js[0].compromiso.is_some()
                &&& js[1].compromiso.is_some()
                &&& js[0].jugada_revelada.is_some()
                &&& js[1].jugada_revelada.is_some()
            },
        }
    }

    /// The winning account once both moves are revealed; `None` on a tie.
    pub open spec fn ganador_del_juego(self) -> Option<u64> {
        match ganador_de(
            self.jugadores@[0].jugada_revelada.unwrap(),
            self.jugadores@[1].jugada_revelada.unwrap(),
        ) {
            Ganador::Primero => Some(self.jugadores@[0].cuenta),
            Ganador::Segundo => Some(self.jugadores@[1].cuenta),
            Ganador::Empate => None,
        }
    }

    /// Whether the ledger can carry out the whole payout: the full pot to
    /// the winner, or half to each player on a tie, the second half paid
    /// out of the balances the first one leaves.
    pub open spec fn pago_posible(self, m: Map<u64, u128>, minimo: u128) -> bool {
        let pot = pot_de(m, self.cuenta_juego, minimo);
        match self.ganador_del_juego() {
            Some(w) => puede_transferir(m, minimo, self.cuenta_juego, w, pot),
            None => {
                let mitad = (pot / 2) as u128;
                &&& puede_transferir(m, minimo, self.cuenta_juego, self.jugadores@[0].cuenta, mitad)
                &&& puede_transferir(
                    tras_transferencia(m, self.cuenta_juego, self.jugadores@[0].cuenta, mitad),
                    minimo,
                    self.cuenta_juego,
                    self.jugadores@[1].cuenta,
                    mitad,
                )
            },
        }
    }

    /// The balances after the payout: the pot to the winner, or half to
    /// each player on a tie — an odd pot's last unit stays in escrow.
    pub open spec fn libro_tras_pago(self, m: Map<u64, u128>, minimo: u128) -> Map<u64, u128> {
        let pot = pot_de(m, self.cuenta_juego, minimo);
        match self.ganador_del_juego() {
            Some(w) => tras_transferencia(m, self.cuenta_juego, w, pot),
            None => {
                let mitad = (pot / 2) as u128;
                tras_transferencia(
                    tras_transferencia(m, self.cuenta_juego, self.jugadores@[0].cuenta, mitad),
                    self.cuenta_juego,
                    self.jugadores@[1].cuenta,
                    mitad,
                )
            },
        }
    }

    /// A fresh game: no players, waiting for the first registration.
    pub fn nuevo(cuenta_juego: u64, apuesta: u128) -> (r: Juego)
        ensures
            r.bien_formado(),
            r.etapa == Etapa::EsperandoJugadores(CantidadDeJugadores::Cero),
            r.jugadores@.len() == 0,
            r.cuenta_juego == cuenta_juego,
            r.apuesta == apuesta,
    {
        let etapa: Etapa = Default::default();
        Juego { etapa, jugadores: Vec::new(), cuenta_juego, apuesta }
    }

    /// The game's dedicated escrow account.
    pub fn account_id(&self) -> (r: u64)
        ensures
            r == self.cuenta_juego,
    {
        self.cuenta_juego
    }

    /// The escrow account and the disbursable pot it currently holds.
    pub fn pot(&self, libro: &Libro) -> (r: (u64, u128))
        ensures
            r.0 == self.cuenta_juego,
            r.1 == pot_de(libro@, self.cuenta_juego, libro.minimo),
    {
        let saldo = libro.saldo_de(self.cuenta_juego);
        if saldo >= libro.minimo {
            (self.cuenta_juego, saldo - libro.minimo)
        } else {
            (self.cuenta_juego, 0)
        }
    }

    /// Registers `quien` to play and escrows the wager. Succeeds exactly
    /// when the game still waits for players, the account is new, and the
    /// ledger accepts the wager transfer; any rejection leaves game and
    /// ledger untouched.
    pub fn registrar(&mut self, libro: &mut Libro, quien: u64) -> (r: Result<Event, Error>)
        requires
            old(self).bien_formado(),
        ensures
            final(self).bien_formado(),
            final(self).cuenta_juego == old(self).cuenta_juego,
            final(self).apuesta == old(self).apuesta,
            final(libro).minimo == old(libro).minimo,
            (r == Err::<Event, Error>(Error::EtapaIncorrecta)) <==> !(old(
                self,
            ).etapa is EsperandoJugadores),
            (r == Err::<Event, Error>(Error::YaRegistrado)) <==> (old(
                self,
            ).etapa is EsperandoJugadores && old(self).es_jugador(quien)),
            (r == Err::<Event, Error>(Error::TransferenciaFallida)) <==> (old(
                self,
            ).etapa is EsperandoJugadores && !old(self).es_jugador(quien) && !puede_transferir(
                old(libro)@,
                old(libro).minimo,
                quien,
                old(self).cuenta_juego,
                old(self).apuesta,
            )),
            r.is_err() ==> {
                ||| r == Err::<Event, Error>(Error::EtapaIncorrecta)
                ||| r == Err::<Event, Error>(Error::YaRegistrado)
                ||| r == Err::<Event, Error>(Error::TransferenciaFallida)
            },
            r.is_err() ==> mismo_juego(*final(self), *old(self)) && final(libro)@ == old(libro)@,
            r.is_ok() ==> {
                &&& r == Ok::<Event, Error>(Event::Registrado { quien })
                &&& final(self).jugadores@ == old(self).jugadores@.push(
                    Jugador { cuenta: quien, compromiso: None, jugada_revelada: None },
                )
                &&& final(self).es_jugador(quien)
                &&& final(self).etapa == old(self).etapa.siguiente()
                &&& final(libro)@ == tras_transferencia(
                    old(libro)@,
                    quien,
                    old(self).cuenta_juego,
                    old(self).apuesta,
                )
            },
    {
        match self.etapa {
            Etapa::EsperandoJugadores(_) => {},
            _ => {
                return Err(Error::EtapaIncorrecta);
            },
        }
        if self.jugadores.len() > 0 && self.jugadores[0].cuenta == quien {
            return Err(Error::YaRegistrado);
        }
        proof {
            assert(!self.es_jugador(quien)) by {
                assert(forall|i: int|
                    0 <= i < self.jugadores@.len() ==> (#[trigger] self.jugadores@[i]).cuenta
                        != quien);
            }
        }
        if !libro.transferir(quien, self.cuenta_juego, self.apuesta) {
            return Err(Error::TransferenciaFallida);
        }
        self.jugadores.push(Jugador { cuenta: quien, compromiso: None, jugada_revelada: None });
        self.etapa.next();
        proof {
            assert(self.es_jugador(quien)) by {
                assert(self.jugadores@[self.jugadores@.len() - 1].cuenta == quien);
            }
        }
        Ok(Event::Registrado { quien })
    }

    /// Stores `hash` as the one-time commitment of `quien`. Succeeds
    /// exactly when the game is in a commit stage, the caller plays, and
    /// no commitment is stored yet; any rejection leaves the game
    /// untouched.
    pub fn commit(&mut self, quien: u64, hash: [u8; 32]) -> (r: Result<Event, Error>)
        requires
            old(self).bien_formado(),
        ensures
            final(self).bien_formado(),
            final(self).cuenta_juego == old(self).cuenta_juego,
            final(self).apuesta == old(self).apuesta,
            (r == Err::<Event, Error>(Error::EtapaIncorrecta)) <==> !(old(self).etapa is Commit),
            (r == Err::<Event, Error>(Error::NoEsJugador)) <==> (old(self).etapa is Commit && !old(
                self,
            ).es_jugador(quien)),
            (r == Err::<Event, Error>(Error::YaComprometido)) <==> (old(self).etapa is Commit
                && old(self).es_jugador(quien) && old(self).jugadores@[old(self).indice_de(
                quien,
            )].compromiso.is_some()),
            r.is_err() ==> {
                ||| r == Err::<Event, Error>(Error::EtapaIncorrecta)
                ||| r == Err::<Event, Error>(Error::NoEsJugador)
                ||| r == Err::<Event, Error>(Error::YaComprometido)
            },
            r.is_err() ==> mismo_juego(*final(self), *old(self)),
            r.is_ok() ==> {
                &&& r == Ok::<Event, Error>(Event::Comprometido { quien, hash })
                &&& old(self).es_jugador(quien)
                &&& final(self).jugadores@ == old(self).jugadores@.update(
                    old(self).indice_de(quien),
                    Jugador {
                        compromiso: Some(hash),
                        ..old(self).jugadores@[old(self).indice_de(quien)]
                    },
                )
                &&& final(self).etapa == old(self).etapa.siguiente()
            },
    {
        match self.etapa {
            Etapa::Commit(_) => {},
            _ => {
                return Err(Error::EtapaIncorrecta);
            },
        }
        let idx: usize = if self.jugadores[0].cuenta == quien {
            0
        } else if self.jugadores[1].cuenta == quien {
            1
        } else {
            proof {
                assert(forall|i: int|
                    0 <= i < self.jugadores@.len() ==> (#[trigger] self.jugadores@[i]).cuenta
                        != quien);
            }
            return Err(Error::NoEsJugador);
        };
        proof {
            assert(self.es_jugador(quien)) by {
                assert(self.jugadores@[idx as int].cuenta == quien);
            }
            assert(idx as int == self.indice_de(quien));
        }
        let mut jugador = self.jugadores[idx];
        if jugador.compromiso.is_some() {
            return Err(Error::YaComprometido);
        }
        jugador.compromiso = Some(hash);
        self.jugadores[idx] = jugador;
        self.etapa.next();
        Ok(Event::Comprometido { quien, hash })
    }

    /// Accepts the move of `quien` when, together with `nonce`, it hashes
    /// to the stored commitment, and records it as revealed. Succeeds
    /// exactly when the game is in a reveal stage, the caller plays, no
    /// move was revealed yet and the hash matches; any rejection leaves
    /// the game untouched.
    pub fn revelar(&mut self, quien: u64, jugada: Jugada, nonce: u128) -> (r: Result<Event, Error>)
        requires
            old(self).bien_formado(),
        ensures
            final(self).bien_formado(),
            final(self).cuenta_juego == old(self).cuenta_juego,
            final(self).apuesta == old(self).apuesta,
            (r == Err::<Event, Error>(Error::EtapaIncorrecta)) <==> !(old(self).etapa is Reveal),
            (r == Err::<Event, Error>(Error::NoEsJugador)) <==> (old(self).etapa is Reveal && !old(
                self,
            ).es_jugador(quien)),
            (r == Err::<Event, Error>(Error::YaRevelado)) <==> (old(self).etapa is Reveal && old(
                self,
            ).es_jugador(quien) && old(self).jugadores@[old(self).indice_de(
                quien,
            )].jugada_revelada.is_some()),
            (r == Err::<Event, Error>(Error::HashIncorrecto)) <==> (old(self).etapa is Reveal
                && old(self).es_jugador(quien) && old(self).jugadores@[old(self).indice_de(
                quien,
            )].jugada_revelada.is_none() && compromiso_de(jugada, nonce) != old(
                self,
            ).jugadores@[old(self).indice_de(quien)].compromiso.unwrap()@),
            r.is_err() ==> {
                ||| r == Err::<Event, Error>(Error::EtapaIncorrecta)
                ||| r == Err::<Event, Error>(Error::NoEsJugador)
                ||| r == Err::<Event, Error>(Error::YaRevelado)
                ||| r == Err::<Event, Error>(Error::HashIncorrecto)
            },
            r.is_err() ==> mismo_juego(*final(self), *old(self)),
            r.is_ok() ==> {
                &&& r == Ok::<Event, Error>(Event::Revelado { quien, jugada })
                &&& compromiso_de(jugada, nonce) == old(self).jugadores@[old(self).indice_de(
                    quien,
                )].compromiso.unwrap()@
                &&& final(self).jugadores@ == old(self).jugadores@.update(
                    old(self).indice_de(quien),
                    Jugador {
                        jugada_revelada: Some(jugada),
                        ..old(self).jugadores@[old(self).indice_de(quien)]
                    },
                )
                &&& final(self).etapa == old(self).etapa.siguiente()
            },
    {
        match self.etapa {
            Etapa::Reveal(_) => {},
            _ => {
                return Err(Error::EtapaIncorrecta);
            },
        }
        let idx: usize = if self.jugadores[0].cuenta == quien {
            0
        } else if self.jugadores[1].cuenta == quien {
            1
        } else {
            proof {
                assert(forall|i: int|
                    0 <= i < self.jugadores@.len() ==> (#[trigger] self.jugadores@[i]).cuenta
                        != quien);
            }
            return Err(Error::NoEsJugador);
        };
        proof {
            assert(self.es_jugador(quien)) by {
                assert(self.jugadores@[idx as int].cuenta == quien);
            }
            assert(idx as int == self.indice_de(quien));
        }
        let mut jugador = self.jugadores[idx];
        if jugador.jugada_revelada.is_some() {
            return Err(Error::YaRevelado);
        }
        let almacenado = jugador.compromiso.unwrap();
        if !verificar(jugada, nonce, &almacenado) {
            return Err(Error::HashIncorrecto);
        }
        jugador.jugada_revelada = Some(jugada);
        self.jugadores[idx] = jugador;
        self.etapa.next();
        proof {
            assert(revelacion_verificada(self.jugadores@[idx as int])) by {
                let tras = self.jugadores@[idx as int];
                assert(tras.jugada_revelada.unwrap() == jugada);
                assert(tras.compromiso.unwrap()@ == compromiso_de(
                    tras.jugada_revelada.unwrap(),
                    nonce,
                ));
            }
        }
        Ok(Event::Revelado { quien, jugada })
    }

    /// Compares the two revealed moves and pays the pot out: all of it to
    /// the winner, or half to each player on a tie. Succeeds exactly when
    /// the game is finished and the ledger accepts the payout; any
    /// rejection, including a refused transfer, leaves every balance
    /// untouched so the call can be retried. The stage stays `Fin`, and a
    /// re-run finds the pot already drained.
    pub fn finalizar_juego(&mut self, libro: &mut Libro) -> (r: Result<Event, Error>)
        requires
            old(self).bien_formado(),
        ensures
            final(self).bien_formado(),
            mismo_juego(*final(self), *old(self)),
            final(libro).minimo == old(libro).minimo,
            (r == Err::<Event, Error>(Error::EtapaIncorrecta)) <==> !(old(self).etapa is Fin),
            (r == Err::<Event, Error>(Error::TransferenciaFallida)) <==> (old(self).etapa is Fin
                && !old(self).pago_posible(old(libro)@, old(libro).minimo)),
            r.is_err() ==> {
                ||| r == Err::<Event, Error>(Error::EtapaIncorrecta)
                ||| r == Err::<Event, Error>(Error::TransferenciaFallida)
            },
            r.is_err() ==> final(libro)@ == old(libro)@,
            r.is_ok() ==> {
                &&& old(self).etapa is Fin
                &&& r == Ok::<Event, Error>(Event::Fin { ganador: old(self).ganador_del_juego() })
                &&& final(libro)@ == old(self).libro_tras_pago(old(libro)@, old(libro).minimo)
            },
    {
        match self.etapa {
            Etapa::Fin => {},
            _ => {
                return Err(Error::EtapaIncorrecta);
            },
        }
        let jugador_1 = self.jugadores[0];
        let jugador_2 = self.jugadores[1];
        let jugada_1 = jugador_1.jugada_revelada.unwrap();
        let jugada_2 = jugador_2.jugada_revelada.unwrap();
        let ganador = determinar_ganador(jugada_1, jugada_2);
        let (cuenta_juego, total) = self.pot(libro);
        match ganador {
            Ganador::Primero => {
                if libro.transferir(cuenta_juego, jugador_1.cuenta, total) {
                    Ok(Event::Fin { ganador: Some(jugador_1.cuenta) })
                } else {
                    Err(Error::TransferenciaFallida)
                }
            },
            Ganador::Segundo => {
                if libro.transferir(cuenta_juego, jugador_2.cuenta, total) {
                    Ok(Event::Fin { ganador: Some(jugador_2.cuenta) })
                } else {
                    Err(Error::TransferenciaFallida)
                }
            },
            Ganador::Empate => {
                let mitad = total / 2;
                if !libro.transferir(cuenta_juego, jugador_1.cuenta, mitad) {
                    return Err(Error::TransferenciaFallida);
                }
                if !libro.transferir(cuenta_juego, jugador_2.cuenta, mitad) {
                    libro.deshacer(cuenta_juego, jugador_1.cuenta, mitad);
                    proof {
                        assert(libro@ =~= old(libro)@);
                    }
                    return Err(Error::TransferenciaFallida);
                }
                Ok(Event::Fin { ganador: None })
            },
        }
    }
}

/// Law: whatever the history of calls, the player list never holds more
/// than two entries.
pub proof fn lema_jugadores_acotados(j: Juego)
    requires
        j.bien_formado(),
    ensures
        j.jugadores@.len() <= 2,
{
}

/// Law: a payout fully disburses the pot. With the escrow account held
/// apart from the players, a winner receives the whole pot and the escrow
/// keeps only its retained minimum; on a tie each player receives half,
/// and the odd unit of an odd pot stays in escrow.
pub proof fn lema_el_pago_reparte_el_pozo(j: Juego, m: Map<u64, u128>, minimo: u128)
    requires
        j.bien_formado(),
        j.etapa == Etapa::Fin,
        j.pago_posible(m, minimo),
        j.jugadores@[0].cuenta != j.cuenta_juego,
        j.jugadores@[1].cuenta != j.cuenta_juego,
    ensures
        ({
            let pot = pot_de(m, j.cuenta_juego, minimo);
            let tras = j.libro_tras_pago(m, minimo);
            match j.ganador_del_juego() {
                Some(w) => tras[w] == m[w] + pot && tras[j.cuenta_juego] == m[j.cuenta_juego] - pot,
                None => {
                    &&& tras[j.jugadores@[0].cuenta] == m[j.jugadores@[0].cuenta] + pot / 2
                    &&& tras[j.jugadores@[1].cuenta] == m[j.jugadores@[1].cuenta] + pot / 2
                    &&& tras[j.cuenta_juego] == m[j.cuenta_juego] - pot + pot % 2
                },
            }
        }),
{
}

/// Law: the finished stage is only reachable once both players have
/// committed and revealed, each reveal backed by a commitment that some
/// nonce makes it hash to.
pub proof fn lema_fin_implica_revelaciones(j: Juego)
    requires
        j.bien_formado(),
        j.etapa == Etapa::Fin,
    ensures
        j.jugadores@.len() == 2,
        j.jugadores@[0].jugada_revelada.is_some(),
        j.jugadores@[1].jugada_revelada.is_some(),
        revelacion_verificada(j.jugadores@[0]),
        revelacion_verificada(j.jugadores@[1]),
{
}

} // verus!
