use vstd::prelude::*;

verus! {

/// Ledger ticks that token withdrawals stay locked after initialization
/// (about one day at the nominal tick rate).
pub const LOCK_DURATION: u64 = 216000;

/// Whether the lock that began at `slot` has expired at ledger counter `counter`.
pub open spec fn lock_expired(slot: u64, counter: u64) -> bool {
    counter as int >= slot as int + LOCK_DURATION as int
}

/// The withdrawal gate: token withdrawal is allowed once the ledger counter
/// reaches the initialization counter plus `LOCK_DURATION`.
pub fn withdrawal_allowed(slot: u64, counter: u64) -> (r: bool)
    ensures
        r == lock_expired(slot, counter),
{
    counter >= LOCK_DURATION && counter - LOCK_DURATION >= slot
}

} // verus!
