//! A value that counts the transactions begun on it.

use vstd::prelude::*;

verus! {

/// `v + n`, wrapping around at 2^64.
pub open spec fn bumped(v: u64, n: nat) -> u64 {
    ((v + n) % 0x1_0000_0000_0000_0000) as u64
}

/// The version counts transactions: a new state is at 0, and each
/// transaction adds one, wrapping around at 2^64. So after `k`
/// transactions the version is `k` modulo 2^64, and `bumped(0, k)` is it.
pub proof fn law_version_counts_transactions(k: nat)
    ensures
        bumped(0, 0) == 0,
        bumped(0, k).wrapping_add(1) == bumped(0, k + 1),
        bumped(0, k) == k % 0x1_0000_0000_0000_0000,
{
    let m: int = 0x1_0000_0000_0000_0000;
    let ki = k as int;
    let v = bumped(0, k) as int;
    vstd::arithmetic::div_mod::lemma_mod_bound(ki, m);
    vstd::arithmetic::div_mod::lemma_mod_bound(ki + 1, m);
    assert(v == ki % m);
    assert(((ki % m) + 1) % m == (ki + 1) % m) by {
        vstd::arithmetic::div_mod::lemma_add_mod_noop(ki, 1, m);
        vstd::arithmetic::div_mod::lemma_small_mod(1nat, m as nat);
    }
    if v + 1 < m {
        vstd::arithmetic::div_mod::lemma_small_mod((v + 1) as nat, m as nat);
    } else {
        vstd::arithmetic::div_mod::lemma_mod_self_0(m);
    }
}

/// A value together with the number of transactions begun on it.
pub struct State<T> {
    ver: u64,
    inner: T,
}

impl<T> State<T> {
    /// The value held.
    pub closed spec fn value(&self) -> T {
        self.inner
    }

    /// The number of transactions begun, modulo 2^64.
    pub closed spec fn spec_version(&self) -> u64 {
        self.ver
    }

    pub fn new(inner: T) -> (s: Self)
        ensures
            s.value() == inner,
            s.spec_version() == 0,
    {
        State { ver: 0, inner }
    }

    pub fn version(&self) -> (v: u64)
        ensures
            v == self.spec_version(),
    {
        self.ver
    }

    pub fn as_ref(&self) -> (r: &T)
        ensures
            *r == self.value(),
    {
        &self.inner
    }

    /// The value held, taking it out of the state.
    pub fn take(self) -> (v: T)
        ensures
            v == self.value(),
    {
        self.inner
    }

    /// Begins a transaction: counts it, and gives write access to the value.
    pub fn transact(&mut self) -> (tx: Tx<'_, T>)
        ensures
            final(self).spec_version() == old(self).spec_version().wrapping_add(1),
            *tx.target() == old(self).value(),
            final(self).value() == *final(tx.target()),
    {
        self.ver = self.ver.wrapping_add(1);
        Tx { inner: &mut self.inner }
    }
}

/// Write access to the value of a `State` during one transaction.
pub struct Tx<'a, T> {
    inner: &'a mut T,
}

impl<'a, T> Tx<'a, T> {
    /// The reference to the value being changed.
    pub closed spec fn target(&self) -> &'a mut T {
        self.inner
    }

    pub fn as_ref(&self) -> (r: &T)
        ensures
            *r == *self.target(),
    {
        &*self.inner
    }

    pub fn as_mut(self) -> (r: &'a mut T)
        ensures
            *r == *self.target(),
            *final(r) == *final(self.target()),
    {
        self.inner
    }
}

} // verus!
