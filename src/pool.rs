//! Sizing of the database connection pool from the machine's CPU count.
use vstd::prelude::*;

verus! {

/// The smallest and the largest number of pooled database connections: the
/// requested numbers where given; else, on a dedicated server, one per CPU at
/// least, and otherwise all CPUs but two, at least one; at most two per CPU.
pub fn connection_limits(cpus: u32, dedicated: bool, min: Option<u32>, max: Option<u32>) -> (r: (u32, u32))
    requires
        cpus <= u32::MAX / 2,
    ensures
        r.0 == match min {
            Some(m) => m,
            None => if dedicated {
                cpus
            } else if cpus > 3 {
                (cpus - 2) as u32
            } else {
                1u32
            },
        },
        r.1 == match max {
            Some(m) => m,
            None => (2 * cpus) as u32,
        },
{
    let default_min = if dedicated {
        cpus
    } else if cpus > 3 {
        cpus - 2
    } else {
        1
    };
    let lo = match min {
        Some(m) => m,
        None => default_min,
    };
    let hi = match max {
        Some(m) => m,
        None => cpus * 2,
    };
    (lo, hi)
}

} // verus!
