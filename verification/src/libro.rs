//! A minimal model of the ledger the game is played against: account
//! balances with an existential minimum, and keep-alive transfers.
//!
//! The game core consumes the ledger only through [`Libro::transferir`]
//! and [`Libro::saldo_de`]; a transfer either moves the full amount or
//! rejects the call with every balance untouched.

use vstd::prelude::*;

verus! {

/// The balance the map assigns to an account: the value of the most
/// recent entry for it, or zero when the account never appeared.
pub open spec fn saldo_en(s: Seq<(u64, u128)>, c: u64) -> u128
    decreases s.len(),
{
    if s.len() == 0 {
        0
    } else if s.last().0 == c {
        s.last().1
    } else {
        saldo_en(s.drop_last(), c)
    }
}

/// Whether the ledger `m` with minimum balance `minimo` accepts a
/// keep-alive transfer of `cantidad` from `de` to `a`: the source must
/// hold the amount and retain the minimum, and the destination must not
/// end below the minimum nor overflow. A self-transfer moves nothing and
/// only needs the source-side checks.
pub open spec fn puede_transferir(
    m: Map<u64, u128>,
    minimo: u128,
    de: u64,
    a: u64,
    cantidad: u128,
) -> bool {
    &&& m[de] >= cantidad
    &&& m[de] - cantidad >= minimo
    &&& (de == a || m[a] + cantidad <= u128::MAX)
    &&& (de == a || m[a] + cantidad >= minimo)
}

/// The balances after a successful transfer of `cantidad` from `de` to
/// `a`; a self-transfer leaves the map as it was.
pub open spec fn tras_transferencia(m: Map<u64, u128>, de: u64, a: u64, cantidad: u128) -> Map<
    u64,
    u128,
> {
    if de == a {
        m
    } else {
        m.insert(de, (m[de] - cantidad) as u128).insert(a, (m[a] + cantidad) as u128)
    }
}

/// The ledger: every account's free balance, and the minimum balance an
/// account must retain to stay alive. Its view is the total map from
/// account to balance, zero for accounts that never received anything.
pub struct Libro {
    pub saldos: Vec<(u64, u128)>,
    pub minimo: u128,
}

impl View for Libro {
    type V = Map<u64, u128>;

    open spec fn view(&self) -> Map<u64, u128> {
        Map::new(|c: u64| true, |c: u64| saldo_en(self.saldos@, c))
    }
}

impl Libro {
    /// An empty ledger: every balance is zero.
    pub fn nuevo(minimo: u128) -> (r: Libro)
        ensures
            r.minimo == minimo,
            forall|c: u64| r@[c] == 0,
    {
        Libro { saldos: Vec::new(), minimo }
    }

    /// The free balance of `c`.
    pub fn saldo_de(&self, c: u64) -> (r: u128)
        ensures
            r == self@[c],
    {
        let mut i: usize = self.saldos.len();
        proof {
            assert(self.saldos@.take(i as int) =~= self.saldos@);
        }
        while i > 0
            invariant
                i <= self.saldos@.len(),
                saldo_en(self.saldos@, c) == saldo_en(self.saldos@.take(i as int), c),
            decreases i,
    {
            i -= 1;
            if self.saldos[i].0 == c {
                proof {
                    assert(self.saldos@.take(i + 1).last() == self.saldos@[i as int]);
                }
                return self.saldos[i].1;
            }
            proof {
                assert(self.saldos@.take(i + 1).drop_last() =~= self.saldos@.take(i as int));
            }
        }
        proof {
            assert(self.saldos@.take(0).len() == 0);
        }
        0
    }

    /// Records `v` as the new balance of `c`.
    fn poner(&mut self, c: u64, v: u128)
        ensures
            final(self)@ == old(self)@.insert(c, v),
            final(self).minimo == old(self).minimo,
    {
        self.saldos.push((c, v));
        proof {
            assert(self.saldos@.drop_last() =~= old(self).saldos@);
            assert(self@ =~= old(self)@.insert(c, v));
        }
    }

    /// Seeds the ledger with a balance, as a genesis configuration does;
    /// the previous balance of `c` is replaced.
    pub fn dotar(&mut self, c: u64, v: u128)
        ensures
            final(self)@ == old(self)@.insert(c, v),
            final(self).minimo == old(self).minimo,
    {
        self.poner(c, v);
    }

    /// Moves `cantidad` from `de` to `a` when [`puede_transferir`] allows
    /// it, and reports whether it did; a rejected transfer changes no
    /// balance.
    pub fn transferir(&mut self, de: u64, a: u64, cantidad: u128) -> (exito: bool)
        ensures
            exito == puede_transferir(old(self)@, old(self).minimo, de, a, cantidad),
            exito ==> final(self)@ == tras_transferencia(old(self)@, de, a, cantidad),
            !exito ==> final(self)@ == old(self)@,
            final(self).minimo == old(self).minimo,
    {
        let saldo_origen = self.saldo_de(de);
        if saldo_origen < cantidad {
            return false;
        }
        if saldo_origen - cantidad < self.minimo {
            return false;
        }
        if de == a {
            return true;
        }
        let saldo_destino = self.saldo_de(a);
        if saldo_destino > u128::MAX - cantidad {
            return false;
        }
        if saldo_destino + cantidad < self.minimo {
            return false;
        }
        self.poner(de, saldo_origen - cantidad);
        self.poner(a, saldo_destino + cantidad);
        true
    }

    /// Reverses a transfer of `cantidad` from `de` to `a` that just took
    /// place, restoring both balances.
    pub(crate) fn deshacer(&mut self, de: u64, a: u64, cantidad: u128)
        requires
            de == a || (old(self)@[a] >= cantidad && old(self)@[de] + cantidad <= u128::MAX),
        ensures
            final(self)@ == (if de == a {
                old(self)@
            } else {
                old(self)@.insert(a, (old(self)@[a] - cantidad) as u128).insert(
                    de,
                    (old(self)@[de] + cantidad) as u128,
                )
            }),
            final(self).minimo == old(self).minimo,
    {
        if de == a {
            return ;
        }
        let saldo_destino = self.saldo_de(a);
        let saldo_origen = self.saldo_de(de);
        self.poner(a, saldo_destino - cantidad);
        self.poner(de, saldo_origen + cantidad);
    }
}

} // verus!
