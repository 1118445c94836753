//! Sizing the pool of sandbox workers.
use vstd::prelude::*;

verus! {

/// Two workers per available CPU.
pub fn get_calculated_worker_count(cpu_count: usize) -> (r: usize)
    requires
        cpu_count * 2 <= usize::MAX,
    ensures
        r == cpu_count * 2,
{
    cpu_count * 2
}

} // verus!
