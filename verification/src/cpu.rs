//! The logical CPU count of the machine, for choosing a worker thread
//! count.

use vstd::prelude::*;

verus! {

/// Relies on `num_cpus::get`: the number of logical CPUs available to
/// this process, honoring scheduler affinity and cgroup limits; its
/// documentation promises at least one.
#[verifier::external_body]
fn cpu_count() -> (r: usize)
    ensures
        r >= 1,
{
    num_cpus::get()
}

/// The number of logical CPUs available to this process; at least one.
pub fn get_cpu_cores() -> (r: usize)
    ensures
        r >= 1,
{
    cpu_count()
}

} // verus!
