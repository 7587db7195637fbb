use vstd::prelude::*;

verus! {

/// Time a record is kept past its deadline, in seconds (30 days).
pub const LEASE_BUFFER: u64 = 2592000;

/// Lease the id counter gets on every write, in seconds (365 days).
pub const COUNTER_LEASE: u32 = 31536000;

/// `x` where it fits a `u32`, the largest `u32` otherwise.
pub open spec fn clamp_to_u32(x: int) -> u32 {
    if x > u32::MAX {
        u32::MAX
    } else {
        x as u32
    }
}

/// The lease of an escrow record written at `now`: until the deadline and a
/// buffer after it, or the buffer alone once the deadline has passed.
pub open spec fn escrow_lease_spec(deadline: u64, now: u64) -> u32 {
    if deadline > now {
        clamp_to_u32(deadline - now + LEASE_BUFFER)
    } else {
        clamp_to_u32(LEASE_BUFFER as int)
    }
}

/// How the lease of an escrow record written at `now` is extended: the
/// threshold below which the store extends it (`now`, clamped), and the
/// lease it is extended to (see [`escrow_lease_spec`]), both as the store's
/// `u32` durations.
pub fn escrow_lease(deadline: u64, now: u64) -> (r: (u32, u32))
    ensures
        r.0 == clamp_to_u32(now as int),
        r.1 == escrow_lease_spec(deadline, now),
{
    let ttl: u64 = if deadline > now {
        let left = deadline - now;
        if left > u64::MAX - LEASE_BUFFER {
            u64::MAX
        } else {
            left + LEASE_BUFFER
        }
    } else {
        LEASE_BUFFER
    };
    let extend_to: u32 = if ttl > u32::MAX as u64 {
        u32::MAX
    } else {
        ttl as u32
    };
    let threshold: u32 = if now > u32::MAX as u64 {
        u32::MAX
    } else {
        now as u32
    };
    (threshold, extend_to)
}

} // verus!
