//! The full game flow, driven through the public operations of `Juego`
//! against a seeded ledger.

use piedra_papel_tijera::compromiso::{calcular_compromiso, conseguir_compromiso};
use piedra_papel_tijera::juego::Juego;
use piedra_papel_tijera::libro::Libro;
use piedra_papel_tijera::tipos::{CantidadDeJugadores, Error, Etapa, Event, Jugada, Jugador};

const CUENTA_JUEGO: u64 = 99;
const APUESTA: u128 = 100;
const MINIMO: u128 = 1;

fn preparar() -> (Juego, Libro) {
    let juego = Juego::nuevo(CUENTA_JUEGO, APUESTA);
    let mut libro = Libro::nuevo(MINIMO);
    libro.dotar(1, 1000);
    libro.dotar(2, 1000);
    libro.dotar(CUENTA_JUEGO, MINIMO);
    (juego, libro)
}

fn preparar_en_commit() -> (Juego, Libro) {
    let (mut juego, mut libro) = preparar();
    assert!(juego.registrar(&mut libro, 1).is_ok());
    assert!(juego.registrar(&mut libro, 2).is_ok());
    (juego, libro)
}

#[test]
fn registrar_funciona() {
    let (mut juego, mut libro) = preparar();
    // Comenzamos en la etapa correcta
    assert_eq!(juego.etapa, Etapa::EsperandoJugadores(CantidadDeJugadores::Cero));

    assert!(juego.registrar(&mut libro, 1).is_ok());
    assert_eq!(juego.jugadores.len(), 1);
    assert_eq!(
        juego.jugadores.first().unwrap(),
        &Jugador { cuenta: 1, compromiso: None, jugada_revelada: None }
    );

    assert_eq!(juego.etapa, Etapa::EsperandoJugadores(CantidadDeJugadores::Uno));

    // Un mismo usuario no puede registrarse dos veces.
    assert_eq!(juego.registrar(&mut libro, 1), Err(Error::YaRegistrado));

    assert!(juego.registrar(&mut libro, 2).is_ok());
    assert_eq!(juego.jugadores.len(), 2);
    assert_eq!(
        juego.jugadores.first().unwrap(),
        &Jugador { cuenta: 1, compromiso: None, jugada_revelada: None }
    );
    assert_eq!(
        juego.jugadores.last().unwrap(),
        &Jugador { cuenta: 2, compromiso: None, jugada_revelada: None }
    );

    // Solo pueden haber dos jugadores. Cuando están todas el juego pasa de etapa.
    assert_eq!(juego.registrar(&mut libro, 3), Err(Error::EtapaIncorrecta));
}

#[test]
fn commit_y_reveal_funcionan() {
    let (mut juego, mut libro) = preparar();

    // Empezamos con los dos jugadores.
    assert!(juego.registrar(&mut libro, 1).is_ok());
    assert!(juego.registrar(&mut libro, 2).is_ok());

    let jugada_1 = Jugada::Papel;
    let (hash_1, nonce_1) = conseguir_compromiso(jugada_1);

    assert_eq!(juego.commit(3, hash_1), Err(Error::NoEsJugador));
    assert!(juego.commit(1, hash_1).is_ok());

    assert_eq!(juego.etapa, Etapa::Commit(CantidadDeJugadores::Uno));

    let jugada_2 = Jugada::Piedra;
    let (hash_2, nonce_2) = conseguir_compromiso(jugada_2);
    assert!(juego.commit(2, hash_2).is_ok());

    assert_eq!(
        juego.jugadores.first().unwrap(),
        &Jugador { cuenta: 1, compromiso: Some(hash_1), jugada_revelada: None }
    );
    assert_eq!(
        juego.jugadores.last().unwrap(),
        &Jugador { cuenta: 2, compromiso: Some(hash_2), jugada_revelada: None }
    );

    assert_eq!(juego.etapa, Etapa::Reveal(CantidadDeJugadores::Cero));

    assert_eq!(juego.revelar(3, Jugada::Papel, 0), Err(Error::NoEsJugador));

    assert!(juego.revelar(1, jugada_1, nonce_1).is_ok());
    assert_eq!(juego.revelar(2, jugada_1, nonce_1), Err(Error::HashIncorrecto));
    assert!(juego.revelar(2, jugada_2, nonce_2).is_ok());
    assert_eq!(juego.etapa, Etapa::Fin);

    assert_eq!(
        juego.finalizar_juego(&mut libro),
        Ok(Event::Fin { ganador: Some(1) })
    );
}

#[test]
fn escenario_papel_gana_y_cobra_el_pozo() {
    let (mut juego, mut libro) = preparar();
    assert_eq!(juego.registrar(&mut libro, 1), Ok(Event::Registrado { quien: 1 }));
    assert_eq!(juego.registrar(&mut libro, 2), Ok(Event::Registrado { quien: 2 }));

    // Las apuestas quedaron en custodia.
    assert_eq!(libro.saldo_de(1), 900);
    assert_eq!(libro.saldo_de(2), 900);
    assert_eq!(libro.saldo_de(CUENTA_JUEGO), MINIMO + 2 * APUESTA);
    assert_eq!(juego.pot(&libro), (CUENTA_JUEGO, 2 * APUESTA));

    let (hash_1, nonce_1) = conseguir_compromiso(Jugada::Papel);
    let (hash_2, nonce_2) = conseguir_compromiso(Jugada::Piedra);
    assert_eq!(juego.commit(1, hash_1), Ok(Event::Comprometido { quien: 1, hash: hash_1 }));
    assert_eq!(juego.commit(2, hash_2), Ok(Event::Comprometido { quien: 2, hash: hash_2 }));
    assert_eq!(
        juego.revelar(1, Jugada::Papel, nonce_1),
        Ok(Event::Revelado { quien: 1, jugada: Jugada::Papel })
    );
    assert_eq!(
        juego.revelar(2, Jugada::Piedra, nonce_2),
        Ok(Event::Revelado { quien: 2, jugada: Jugada::Piedra })
    );

    assert_eq!(juego.finalizar_juego(&mut libro), Ok(Event::Fin { ganador: Some(1) }));

    // El pozo entero pasó a la cuenta 1.
    assert_eq!(libro.saldo_de(1), 900 + 2 * APUESTA);
    assert_eq!(libro.saldo_de(2), 900);
    assert_eq!(libro.saldo_de(CUENTA_JUEGO), MINIMO);
}

#[test]
fn escenario_empate_divide_el_pozo() {
    let (mut juego, mut libro) = preparar();
    assert!(juego.registrar(&mut libro, 1).is_ok());
    assert!(juego.registrar(&mut libro, 2).is_ok());

    let (hash_1, nonce_1) = conseguir_compromiso(Jugada::Tijera);
    let (hash_2, nonce_2) = conseguir_compromiso(Jugada::Tijera);
    assert!(juego.commit(1, hash_1).is_ok());
    assert!(juego.commit(2, hash_2).is_ok());
    assert!(juego.revelar(1, Jugada::Tijera, nonce_1).is_ok());
    assert!(juego.revelar(2, Jugada::Tijera, nonce_2).is_ok());

    assert_eq!(juego.finalizar_juego(&mut libro), Ok(Event::Fin { ganador: None }));

    // El pozo se dividió en partes iguales.
    assert_eq!(libro.saldo_de(1), 1000);
    assert_eq!(libro.saldo_de(2), 1000);
    assert_eq!(libro.saldo_de(CUENTA_JUEGO), MINIMO);
}

#[test]
fn escenario_empate_con_pozo_impar_deja_el_resto_en_custodia() {
    let (mut juego, mut libro) = preparar();
    // Una unidad extra en custodia hace impar al pozo.
    libro.dotar(CUENTA_JUEGO, MINIMO + 1);
    assert!(juego.registrar(&mut libro, 1).is_ok());
    assert!(juego.registrar(&mut libro, 2).is_ok());
    assert_eq!(juego.pot(&libro).1, 2 * APUESTA + 1);

    let (hash_1, nonce_1) = conseguir_compromiso(Jugada::Piedra);
    let (hash_2, nonce_2) = conseguir_compromiso(Jugada::Piedra);
    assert!(juego.commit(1, hash_1).is_ok());
    assert!(juego.commit(2, hash_2).is_ok());
    assert!(juego.revelar(1, Jugada::Piedra, nonce_1).is_ok());
    assert!(juego.revelar(2, Jugada::Piedra, nonce_2).is_ok());

    assert_eq!(juego.finalizar_juego(&mut libro), Ok(Event::Fin { ganador: None }));

    assert_eq!(libro.saldo_de(1), 1000);
    assert_eq!(libro.saldo_de(2), 1000);
    // La unidad impar queda en la cuenta del juego.
    assert_eq!(libro.saldo_de(CUENTA_JUEGO), MINIMO + 1);
}

#[test]
fn escenario_cuenta_ajena_no_puede_commit() {
    let (mut juego, _libro) = preparar_en_commit();
    assert_eq!(juego.etapa, Etapa::Commit(CantidadDeJugadores::Cero));

    let jugadores_antes = juego.jugadores.clone();
    let (hash, _nonce) = conseguir_compromiso(Jugada::Piedra);
    assert_eq!(juego.commit(3, hash), Err(Error::NoEsJugador));

    // El estado del juego no cambió.
    assert_eq!(juego.etapa, Etapa::Commit(CantidadDeJugadores::Cero));
    assert_eq!(juego.jugadores, jugadores_antes);
}

#[test]
fn escenario_revelacion_que_no_coincide_falla() {
    let (mut juego, _libro) = preparar_en_commit();
    let (hash_1, nonce_1) = conseguir_compromiso(Jugada::Papel);
    let (hash_2, _nonce_2) = conseguir_compromiso(Jugada::Piedra);
    assert!(juego.commit(1, hash_1).is_ok());
    assert!(juego.commit(2, hash_2).is_ok());

    // Otro nonce, u otra jugada, no pasan la verificación.
    assert_eq!(
        juego.revelar(1, Jugada::Papel, nonce_1.wrapping_add(1)),
        Err(Error::HashIncorrecto)
    );
    assert_eq!(juego.revelar(1, Jugada::Tijera, nonce_1), Err(Error::HashIncorrecto));

    // La etapa no avanzó y la jugada sigue sin revelar.
    assert_eq!(juego.etapa, Etapa::Reveal(CantidadDeJugadores::Cero));
    assert_eq!(juego.jugadores[0].jugada_revelada, None);

    // El nonce correcto sí pasa.
    assert_eq!(
        juego.revelar(1, Jugada::Papel, nonce_1),
        Ok(Event::Revelado { quien: 1, jugada: Jugada::Papel })
    );
}

#[test]
fn registrar_sin_fondos_falla_sin_efectos() {
    let (mut juego, mut libro) = preparar();
    libro.dotar(1, APUESTA);  // tras apostar quedaría bajo el mínimo
    assert_eq!(juego.registrar(&mut libro, 1), Err(Error::TransferenciaFallida));
    assert_eq!(juego.etapa, Etapa::EsperandoJugadores(CantidadDeJugadores::Cero));
    assert_eq!(juego.jugadores.len(), 0);
    assert_eq!(libro.saldo_de(1), APUESTA);
    assert_eq!(libro.saldo_de(CUENTA_JUEGO), MINIMO);
}

#[test]
fn commit_dos_veces_falla() {
    let (mut juego, _libro) = preparar_en_commit();
    let (hash, _nonce) = conseguir_compromiso(Jugada::Piedra);
    assert!(juego.commit(1, hash).is_ok());
    assert_eq!(juego.commit(1, hash), Err(Error::YaComprometido));
    assert_eq!(juego.etapa, Etapa::Commit(CantidadDeJugadores::Uno));
}

#[test]
fn revelar_dos_veces_falla() {
    let (mut juego, _libro) = preparar_en_commit();
    let (hash_1, nonce_1) = conseguir_compromiso(Jugada::Papel);
    let (hash_2, nonce_2) = conseguir_compromiso(Jugada::Piedra);
    assert!(juego.commit(1, hash_1).is_ok());
    assert!(juego.commit(2, hash_2).is_ok());
    assert!(juego.revelar(1, Jugada::Papel, nonce_1).is_ok());
    assert_eq!(juego.revelar(1, Jugada::Papel, nonce_1), Err(Error::YaRevelado));
    assert_eq!(juego.etapa, Etapa::Reveal(CantidadDeJugadores::Uno));
    assert!(juego.revelar(2, Jugada::Piedra, nonce_2).is_ok());
}

#[test]
fn operaciones_fuera_de_etapa_fallan() {
    let (mut juego, mut libro) = preparar();
    let hash = calcular_compromiso(Jugada::Piedra, 5);
    assert_eq!(juego.commit(1, hash), Err(Error::EtapaIncorrecta));
    assert_eq!(juego.revelar(1, Jugada::Piedra, 5), Err(Error::EtapaIncorrecta));
    assert_eq!(juego.finalizar_juego(&mut libro), Err(Error::EtapaIncorrecta));

    assert!(juego.registrar(&mut libro, 1).is_ok());
    assert!(juego.registrar(&mut libro, 2).is_ok());
    assert_eq!(juego.registrar(&mut libro, 3), Err(Error::EtapaIncorrecta));
    assert_eq!(juego.revelar(1, Jugada::Piedra, 5), Err(Error::EtapaIncorrecta));
    assert_eq!(juego.finalizar_juego(&mut libro), Err(Error::EtapaIncorrecta));
}

#[test]
fn finalizar_de_nuevo_ve_el_pozo_vacio() {
    let (mut juego, mut libro) = preparar();
    assert!(juego.registrar(&mut libro, 1).is_ok());
    assert!(juego.registrar(&mut libro, 2).is_ok());
    let (hash_1, nonce_1) = conseguir_compromiso(Jugada::Piedra);
    let (hash_2, nonce_2) = conseguir_compromiso(Jugada::Tijera);
    assert!(juego.commit(1, hash_1).is_ok());
    assert!(juego.commit(2, hash_2).is_ok());
    assert!(juego.revelar(1, Jugada::Piedra, nonce_1).is_ok());
    assert!(juego.revelar(2, Jugada::Tijera, nonce_2).is_ok());

    assert_eq!(juego.finalizar_juego(&mut libro), Ok(Event::Fin { ganador: Some(1) }));
    assert_eq!(libro.saldo_de(1), 900 + 2 * APUESTA);
    assert_eq!(juego.etapa, Etapa::Fin);

    // Una segunda llamada encuentra el pozo ya vacío y no mueve nada.
    assert_eq!(juego.pot(&libro).1, 0);
    assert_eq!(juego.finalizar_juego(&mut libro), Ok(Event::Fin { ganador: Some(1) }));
    assert_eq!(libro.saldo_de(1), 900 + 2 * APUESTA);
    assert_eq!(libro.saldo_de(CUENTA_JUEGO), MINIMO);
}

#[test]
fn pago_rechazado_no_mueve_fondos() {
    // Con un mínimo alto, un destinatario vaciado no puede recibir su
    // mitad y el pago entero se rechaza.
    let minimo: u128 = 150;
    let mut juego = Juego::nuevo(CUENTA_JUEGO, APUESTA);
    let mut libro = Libro::nuevo(minimo);
    libro.dotar(1, 300);
    libro.dotar(2, 300);
    libro.dotar(CUENTA_JUEGO, minimo);
    assert!(juego.registrar(&mut libro, 1).is_ok());
    assert!(juego.registrar(&mut libro, 2).is_ok());
    let (hash_1, nonce_1) = conseguir_compromiso(Jugada::Papel);
    let (hash_2, nonce_2) = conseguir_compromiso(Jugada::Papel);
    assert!(juego.commit(1, hash_1).is_ok());
    assert!(juego.commit(2, hash_2).is_ok());
    assert!(juego.revelar(1, Jugada::Papel, nonce_1).is_ok());
    assert!(juego.revelar(2, Jugada::Papel, nonce_2).is_ok());

    // La cuenta 2 queda vaciada: su mitad (100) no alcanza el mínimo (150).
    libro.dotar(2, 0);
    assert_eq!(juego.finalizar_juego(&mut libro), Err(Error::TransferenciaFallida));

    // La primera mitad ya pagada fue devuelta: nada se movió.
    assert_eq!(libro.saldo_de(1), 200);
    assert_eq!(libro.saldo_de(2), 0);
    assert_eq!(libro.saldo_de(CUENTA_JUEGO), minimo + 2 * APUESTA);

    // Con fondos repuestos, el reintento paga a ambos.
    libro.dotar(2, 200);
    assert_eq!(juego.finalizar_juego(&mut libro), Ok(Event::Fin { ganador: None }));
    assert_eq!(libro.saldo_de(1), 300);
    assert_eq!(libro.saldo_de(2), 300);
    assert_eq!(libro.saldo_de(CUENTA_JUEGO), minimo);
}

#[test]
fn account_id_es_la_cuenta_del_juego() {
    let (juego, _libro) = preparar();
    assert_eq!(juego.account_id(), CUENTA_JUEGO);
}
