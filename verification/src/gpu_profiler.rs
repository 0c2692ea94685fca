//! Parameters of a GPU benchmark run and the choice of the device to
//! run it on.  The metric arithmetic of the run itself is floating
//! point and lives with the host; choosing the device is verified here.

use vstd::prelude::*;

use crate::providers::Provider;
use crate::providers::DeviceType;

verus! {

/// Parameters of one GPU benchmark run.
#[derive(Debug)]
pub struct GPUProfilerConfig {
    /// Target data size, in GiB.
    pub target_data_size: u32,
    /// Duration of the run, in seconds.
    pub duration: u32,
    /// Optional path for the benchmark output.
    pub output_path: Option<String>,
}

/// Error text when no provider is a GPU.
pub open spec fn spec_no_gpu_error() -> Seq<char> {
    "No GPU found"@
}

/// The index of the first GPU among the enumerated providers, or `None`
/// when there is no GPU at all.
pub fn find_first_gpu(providers: &Vec<Provider>) -> (r: Option<usize>)
    ensures
        match r {
            Some(i) => i < providers@.len() && providers@[i as int].device_type
                == DeviceType::GPU && forall|j: int|
                0 <= j < i ==> providers@[j].device_type != DeviceType::GPU,
            None => forall|j: int|
                0 <= j < providers@.len() ==> providers@[j].device_type != DeviceType::GPU,
        },
{
    let n: usize = providers.len();
    let mut i: usize = 0;
    while i < n
        invariant
            n == providers@.len(),
            0 <= i <= n,
            forall|j: int| 0 <= j < i ==> providers@[j].device_type != DeviceType::GPU,
        decreases n - i,
    {
        match providers[i].device_type {
            DeviceType::GPU => {
                return Some(i);
            },
            DeviceType::CPU => {},
        }
        i = i + 1;
    }
    None
}

} // verus!
