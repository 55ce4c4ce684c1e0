//! The commit-reveal verifier: deterministic encoding of a move and a
//! nonce, the Blake2-256 commitment over it, and the check a reveal must
//! pass.

use vstd::prelude::*;
use crate::tipos::Jugada;

verus! {

/// The one-byte encoding of a move: the variant's index, as the SCALE
/// codec writes an enum without explicit discriminants.
pub open spec fn byte_de_jugada(j: Jugada) -> u8 {
    match j {
        Jugada::Piedra => 0,
        Jugada::Papel => 1,
        Jugada::Tijera => 2,
    }
}

/// The SCALE encoding of a fixed-width integer: its bytes in little-endian
/// order.
pub open spec fn bytes_le_u128(n: u128) -> Seq<u8> {
    Seq::new(16, |i: int| ((n >> ((8 * i) as u128)) & 0xff) as u8)
}

/// The byte string a commitment is computed over: the encoded move
/// followed by the encoded nonce.
pub open spec fn bytes_de_compromiso(j: Jugada, nonce: u128) -> Seq<u8> {
    seq![byte_de_jugada(j)] + bytes_le_u128(nonce)
}

/// The 32-byte digest that the ledger's hash function assigns to a byte
/// string handed over as a length-prefixed vector. A function of the bytes
/// alone.
pub uninterp spec fn hash_de_bytes(b: Seq<u8>) -> Seq<u8>;

/// The commitment that binds a player to `j`: the digest of the encoded
/// move and nonce.
pub open spec fn compromiso_de(j: Jugada, nonce: u128) -> Seq<u8> {
    hash_de_bytes(bytes_de_compromiso(j, nonce))
}

/// Relies on `sp_runtime::traits::BlakeTwo256` through the `Hash` trait:
/// `hash_of` SCALE-encodes the vector and returns its Blake2-256 digest,
/// a 32-byte value determined by the input bytes alone.
#[verifier::external_body]
fn hash_de(b: &Vec<u8>) -> (r: [u8; 32])
    ensures
        r@ == hash_de_bytes(b@),
{
    <sp_runtime::traits::BlakeTwo256 as sp_runtime::traits::Hash>::hash_of(b).0
}

/// Relies on `parity_scale_codec::Encode` for `u128`: SCALE encodes a
/// fixed-width integer as its 16 little-endian bytes.
#[verifier::external_body]
fn codificar_nonce(nonce: u128) -> (r: Vec<u8>)
    ensures
        r@ == bytes_le_u128(nonce),
{
    parity_scale_codec::Encode::encode(&nonce)
}

/// Relies on `rand::random`: a thread-local generator draws the nonce, so
/// nothing is promised of the value. The generator is not
/// cryptographically secure; commitment secrecy rests on the caller
/// choosing unpredictable nonces.
#[verifier::external_body]
fn nonce_aleatorio() -> u128 {
    rand::random()
}

/// Computes the commitment hash for `j` under the secret `nonce`.
pub fn calcular_compromiso(j: Jugada, nonce: u128) -> (r: [u8; 32])
    ensures
        r@ == compromiso_de(j, nonce),
{
    let primer_byte: u8 = match j {
        Jugada::Piedra => 0,
        Jugada::Papel => 1,
        Jugada::Tijera => 2,
    };
    let mut b: Vec<u8> = Vec::new();
    b.push(primer_byte);
    let mut cola = codificar_nonce(nonce);
    b.append(&mut cola);
    proof {
        assert(b@ =~= bytes_de_compromiso(j, nonce));
    }
    hash_de(&b)
}

/// Draws a fresh nonce and returns the commitment hash for `j` under it,
/// together with the nonce the player must keep secret until reveal.
pub fn conseguir_compromiso(j: Jugada) -> (r: ([u8; 32], u128))
    ensures
        r.0@ == compromiso_de(j, r.1),
{
    let nonce = nonce_aleatorio();
    (calcular_compromiso(j, nonce), nonce)
}

/// Decides whether `compromiso` is exactly the commitment of `j` under
/// `nonce`; pure, the caller turns a `false` into `Error::HashIncorrecto`.
pub fn verificar(j: Jugada, nonce: u128, compromiso: &[u8; 32]) -> (r: bool)
    ensures
        r == (compromiso_de(j, nonce) == compromiso@),
{
    let calculado = calcular_compromiso(j, nonce);
    let mut i: usize = 0;
    while i < 32
        invariant
            i <= 32,
            calculado@ == compromiso_de(j, nonce),
            forall|k: int| 0 <= k < i ==> calculado@[k] == compromiso@[k],
        decreases 32 - i,
    {
        if calculado[i] != compromiso[i] {
            assert(calculado@ != compromiso@);
            return false;
        }
        i += 1;
    }
    proof {
        assert(calculado@ =~= compromiso@);
    }
    true
}

} // verus!
