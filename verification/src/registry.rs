//! The count of open viewer connections, which gates the poller: the poller
//! runs only while the count is positive, and is woken when it leaves zero.
//!
//! The registry is a plain value. Tasks that share it keep it behind a lock,
//! so that registrations and unregistrations take effect one after the other.

use vstd::prelude::*;

verus! {

/// The count after one more connection has registered.
pub open spec fn count_after_register(count: nat) -> nat {
    count + 1
}

/// Whether a registration at `count` has to wake the poller: only the one
/// that finds no connection open.
pub open spec fn register_wakes(count: nat) -> bool {
    count == 0
}

/// The count after one connection has left. It never falls below zero.
pub open spec fn count_after_unregister(count: nat) -> nat {
    if count > 0 {
        (count - 1) as nat
    } else {
        0
    }
}

/// The registry of open connections. Its view is their number.
pub struct Registry {
    count: u64,
}

impl View for Registry {
    type V = nat;

    closed spec fn view(&self) -> nat {
        self.count as nat
    }
}

impl Registry {
    /// A registry with no connection.
    pub fn new() -> (registry: Registry)
        ensures
            registry@ == 0,
    {
        Registry { count: 0 }
    }

    /// The number of open connections.
    pub fn count(&self) -> (count: u64)
        ensures
            count == self@,
    {
        self.count
    }

    /// Whether any connection is open, that is whether the poller has to run.
    pub fn is_active(&self) -> (active: bool)
        ensures
            active == (self@ > 0),
    {
        self.count > 0
    }

    /// Counts one more connection. The result says whether the poller has to
    /// be woken, which is so exactly when no connection was open before.
    pub fn register(&mut self) -> (wake: bool)
        requires
            old(self)@ < u64::MAX,
        ensures
            final(self)@ == count_after_register(old(self)@),
            wake == register_wakes(old(self)@),
    {
        let wake = self.count == 0;
        self.count = self.count + 1;
        wake
    }

    /// Counts one connection less; with none open the count stays at zero.
    pub fn unregister(&mut self)
        ensures
            final(self)@ == count_after_unregister(old(self)@),
    {
        if self.count > 0 {
            self.count = self.count - 1;
        }
    }
}

/// Registering and then unregistering leaves the count as it was; from an
/// empty registry it is zero again.
pub proof fn lemma_register_then_unregister(count: nat)
    ensures
        count_after_unregister(count_after_register(count)) == count,
{
}

/// The count after `n` more connections have registered.
pub open spec fn count_after_registers(count: nat, n: nat) -> nat
    decreases n,
{
    if n == 0 {
        count
    } else {
        count_after_registers(count_after_register(count), (n - 1) as nat)
    }
}

/// The count after `n` connections have left.
pub open spec fn count_after_unregisters(count: nat, n: nat) -> nat
    decreases n,
{
    if n == 0 {
        count
    } else {
        count_after_unregisters(count_after_unregister(count), (n - 1) as nat)
    }
}

/// The count is the number of registrations less the number of
/// unregistrations, as long as nobody unregisters who did not register: of
/// `n` sessions that registered into an empty registry and of which `k` have
/// left, `n - k` are counted, and the count is zero only when all have left.
pub proof fn lemma_count_is_balance(n: nat, k: nat)
    requires
        k <= n,
    ensures
        count_after_unregisters(count_after_registers(0, n), k) == n - k,
{
    lemma_registers_add(0, n);
    lemma_unregisters_subtract(n, k);
}

/// `n` registrations raise the count by `n`.
pub proof fn lemma_registers_add(count: nat, n: nat)
    ensures
        count_after_registers(count, n) == count + n,
    decreases n,
{
    if n > 0 {
        lemma_registers_add(count_after_register(count), (n - 1) as nat);
    }
}

/// `k` unregistrations lower the count by `k`, but not below zero.
pub proof fn lemma_unregisters_subtract(count: nat, k: nat)
    ensures
        count_after_unregisters(count, k) == if k <= count {
            (count - k) as nat
        } else {
            0
        },
    decreases k,
{
    if k > 0 {
        lemma_unregisters_subtract(count_after_unregister(count), (k - 1) as nat);
    }
}

/// Two registrations into an empty registry give a count of two, of which
/// only the first wakes the poller, and the count is zero again only after
/// both have unregistered.
pub proof fn lemma_two_registrations()
    ensures
        count_after_register(count_after_register(0)) == 2,
        register_wakes(0),
        !register_wakes(count_after_register(0)),
        count_after_unregister(2) == 1,
        count_after_unregister(count_after_unregister(2)) == 0,
{
}

} // verus!
