use vstd::prelude::*;

verus! {

/// Ledgers closed per day at about five seconds per ledger.
pub const LEDGERS_PER_DAY: u32 = 17_280;

/// How long a recorded milestone approval stays live.
pub const PENDING_APPROVAL_TTL_LEDGERS: u32 = LEDGERS_PER_DAY * 7;

/// Remaining life below which a pending approval is renewed.
pub const PENDING_APPROVAL_BUMP_THRESHOLD: u32 = LEDGERS_PER_DAY;

/// Minimum ledgers that must elapse between proposing and accepting a
/// governance admin rotation (about two days).
pub const ADMIN_ROTATION_MIN_DELAY_LEDGERS: u32 = LEDGERS_PER_DAY * 2;

/// How long a proposed client migration stays acceptable.
pub const PENDING_MIGRATION_TTL_LEDGERS: u32 = LEDGERS_PER_DAY * 21;

/// Remaining life below which a pending migration is renewed.
pub const PENDING_MIGRATION_BUMP_THRESHOLD: u32 = LEDGERS_PER_DAY * 3;

/// Persistent storage lifetime: extended to 30 days on access.
pub const PERSISTENT_TTL_LEDGERS: u32 = LEDGERS_PER_DAY * 30;

/// Remaining life below which a persistent entry is renewed.
pub const PERSISTENT_BUMP_THRESHOLD: u32 = LEDGERS_PER_DAY * 7;

/// `sequence + ttl`, saturating at `u32::MAX`.
pub open spec fn expiry(sequence: u32, ttl_ledgers: u32) -> u32 {
    if sequence + ttl_ledgers <= u32::MAX {
        (sequence + ttl_ledgers) as u32
    } else {
        u32::MAX
    }
}

/// The last ledger at which an entry written at `sequence` with a lifetime
/// of `ttl_ledgers` is still live.
pub fn compute_expiry(sequence: u32, ttl_ledgers: u32) -> (r: u32)
    ensures
        r == expiry(sequence, ttl_ledgers),
{
    sequence.saturating_add(ttl_ledgers)
}

} // verus!
