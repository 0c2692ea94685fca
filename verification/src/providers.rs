//! The compute-device capability surface: provider identifiers, device
//! classification, and the rough performance estimate.
//!
//! Enumerating OpenCL platforms and devices and querying their info
//! strings is the host's work; what those strings and indices mean is
//! decided here.  A provider id packs the platform index into the upper
//! sixteen bits and the device index into the lower sixteen.

use vstd::prelude::*;
use vstd::string::StringExecFns;
use vstd::arithmetic::div_mod::lemma_fundamental_div_mod_converse;

use crate::scan::matches_at;
use crate::scan::contains_pattern;
use crate::scan::all_digits;
use crate::scan::digits_value;
use crate::scan::digits_to_value;
use crate::scan::is_digit_byte;

verus! {

/// The kind of a compute device.
#[derive(Clone, Copy, Debug, PartialEq, Eq, Structural)]
pub enum DeviceType {
    CPU,
    GPU,
}

/// One compute device offered to the caller: a packed id, the model
/// name, the kind, and an optional performance hint in hashes per
/// second.
#[derive(Debug)]
pub struct Provider {
    pub id: u32,
    pub model: String,
    pub device_type: DeviceType,
    pub performance: Option<u64>,
}

/// What can go wrong while enumerating or querying compute devices.
#[derive(Debug)]
pub enum PostProviderError {
    PlatformListError(String),
    DeviceListError(String),
    DeviceInfoError(String),
    DeviceNotFound,
}

/// The display text of a device enumeration error.
pub open spec fn spec_provider_error_message(e: PostProviderError) -> Seq<char> {
    match e {
        PostProviderError::PlatformListError(msg) => "Failed to list platforms: "@ + msg@,
        PostProviderError::DeviceListError(msg) => "Failed to list devices: "@ + msg@,
        PostProviderError::DeviceInfoError(msg) => "Failed to get device info: "@ + msg@,
        PostProviderError::DeviceNotFound => "Device not found"@,
    }
}

impl PostProviderError {
    /// Renders the error for display.
    pub fn message(&self) -> (m: String)
        ensures
            m@ == spec_provider_error_message(*self),
    {
        match self {
            PostProviderError::PlatformListError(msg) => String::from_str(
                "Failed to list platforms: ",
            ).concat(msg.as_str()),
            PostProviderError::DeviceListError(msg) => String::from_str(
                "Failed to list devices: ",
            ).concat(msg.as_str()),
            PostProviderError::DeviceInfoError(msg) => String::from_str(
                "Failed to get device info: ",
            ).concat(msg.as_str()),
            PostProviderError::DeviceNotFound => String::from_str("Device not found"),
        }
    }
}

/// The bytes of `GPU`, looked for in a device's type string.
pub open spec fn spec_gpu_marker() -> Seq<u8> {
    seq![71u8, 80u8, 85u8]
}

/// Classifies a device by its type string: a GPU exactly when the
/// string mentions `GPU`, a CPU otherwise.
pub fn classify_device_type(type_info: &[u8]) -> (r: DeviceType)
    ensures
        (r == DeviceType::GPU) == exists|i: int| matches_at(type_info@, spec_gpu_marker(), i),
{
    let mut marker: Vec<u8> = Vec::new();
    marker.push(71);
    marker.push(80);
    marker.push(85);
    proof {
        assert(marker@ =~= spec_gpu_marker());
    }
    if contains_pattern(type_info, marker.as_slice()) {
        DeviceType::GPU
    } else {
        DeviceType::CPU
    }
}

/// Packs a platform index and a device index into one provider id.
pub fn provider_id(platform_idx: usize, device_idx: usize) -> (r: u32)
    requires
        platform_idx < 65536,
        device_idx < 65536,
    ensures
        r == platform_idx * 65536 + device_idx,
{
    (platform_idx as u32) * 65536 + (device_idx as u32)
}

/// Unpacks a provider id into its platform and device indices.
pub fn decode_provider_id(id: u32) -> (r: (usize, usize))
    ensures
        r.0 == id as int / 65536,
        r.1 == id as int % 65536,
        r.0 < 65536,
        r.1 < 65536,
{
    ((id / 65536) as usize, (id % 65536) as usize)
}

/// Packing and unpacking a provider id is lossless: decoding the packed
/// id gives back exactly the two indices.
pub proof fn lemma_provider_id_round_trip(platform_idx: usize, device_idx: usize)
    requires
        platform_idx < 65536,
        device_idx < 65536,
    ensures
        (platform_idx * 65536 + device_idx) / 65536 == platform_idx,
        (platform_idx * 65536 + device_idx) % 65536 == device_idx,
{
    lemma_fundamental_div_mod_converse(
        platform_idx * 65536 + device_idx,
        65536,
        platform_idx as int,
        device_idx as int,
    );
}

/// The rough performance estimate of a device, in hashes per second:
/// compute units times clock frequency (MHz) times a thousand.  An
/// estimate beyond the range of the figure saturates.
pub fn estimated_performance(compute_units: u32, frequency: u32) -> (r: u64)
    ensures
        (compute_units as nat) * (frequency as nat) * 1000 <= u64::MAX ==> r as nat == (
        compute_units as nat) * (frequency as nat) * 1000,
        (compute_units as nat) * (frequency as nat) * 1000 > u64::MAX ==> r == u64::MAX,
{
    assert((compute_units as nat) * (frequency as nat) <= 0xFFFFFFFF * 0xFFFFFFFF)
        by (nonlinear_arith)
        requires
            compute_units <= 0xFFFFFFFFu32,
            frequency <= 0xFFFFFFFFu32,
    ;
    let wide: u128 = (compute_units as u128) * (frequency as u128) * 1000;
    if wide > 0xFFFFFFFFFFFFFFFF {
        u64::MAX
    } else {
        wide as u64
    }
}

/// The model names of the GPU providers, in enumeration order.
pub open spec fn spec_gpu_models(providers: Seq<Provider>) -> Seq<Seq<char>>
    decreases providers.len(),
{
    if providers.len() == 0 {
        seq![]
    } else {
        let rest = spec_gpu_models(providers.drop_last());
        if providers.last().device_type == DeviceType::GPU {
            rest + seq![providers.last().model@]
        } else {
            rest
        }
    }
}

/// Picks the model names of the GPU providers, in order.
pub fn get_gpu_info(providers: &Vec<Provider>) -> (r: Vec<String>)
    ensures
        r.deep_view() == spec_gpu_models(providers@),
{
    let mut r: Vec<String> = Vec::new();
    let n: usize = providers.len();
    let mut i: usize = 0;
    proof {
        assert(providers@.take(0) =~= Seq::<Provider>::empty());
        assert(r.deep_view() =~~= spec_gpu_models(providers@.take(0)));
    }
    while i < n
        invariant
            n == providers@.len(),
            0 <= i <= n,
            r.deep_view() =~~= spec_gpu_models(providers@.take(i as int)),
        decreases n - i,
    {
        let ghost prev: Seq<Seq<char>> = r.deep_view();
        proof {
            assert(providers@.take(i + 1).drop_last() =~= providers@.take(i as int));
            assert(providers@.take(i + 1).last() == providers@[i as int]);
        }
        match providers[i].device_type {
            DeviceType::GPU => {
                r.push(providers[i].model.clone());
                proof {
                    assert(r.deep_view() =~~= prev + seq![providers@[i as int].model@]);
                }
            },
            DeviceType::CPU => {},
        }
        proof {
            assert(r.deep_view() =~~= spec_gpu_models(providers@.take(i + 1)));
        }
        i = i + 1;
    }
    proof {
        assert(providers@.take(n as int) =~= providers@);
    }
    r
}

/// Parses a device info string as an unsigned figure: the whole string
/// must be decimal digits and the value must fit.
pub fn parse_u32(s: &[u8]) -> (r: Option<u32>)
    ensures
        match r {
            Some(v) => s@.len() > 0 && all_digits(s@) && digits_value(s@) == v as nat,
            None => s@.len() == 0 || !all_digits(s@) || digits_value(s@) > u32::MAX,
        },
{
    let n: usize = s.len();
    if n == 0 {
        return None;
    }
    let mut i: usize = 0;
    while i < n
        invariant
            n == s@.len(),
            0 <= i <= n,
            forall|k: int| 0 <= k < i ==> is_digit_byte(s@[k]),
        decreases n - i,
    {
        let b: u8 = s[i];
        if !(48 <= b && b <= 57) {
            return None;
        }
        i = i + 1;
    }
    let wide: u64 = match digits_to_value(s, 0, n) {
        Some(v) => v,
        None => {
            proof {
                assert(s@.subrange(0, n as int) =~= s@);
            }
            return None;
        },
    };
    proof {
        assert(s@.subrange(0, n as int) =~= s@);
    }
    if wide > 0xFFFFFFFF {
        None
    } else {
        Some(wide as u32)
    }
}

} // verus!
