//! The parameterized, time-bounded benchmark run of the worker binary:
//! parameter validation, the exact argument vector, and interpretation
//! of the worker's structured result.
//!
//! On success the worker writes a single JSON object to stdout carrying
//! at least `time_s` and `speed_gib_s`; any other content is ignored.
//! Both figures are carried here in millionths (fixed point), read from
//! the decimal number token after the key — a scan of the output, not a
//! general JSON reader, which suffices because extra content is ignored
//! by contract.  Times and speeds beyond the fixed-point range are
//! reported as a parse failure, never as a truncated figure.

use vstd::prelude::*;
use vstd::string::StringExecFns;

use crate::scan::matches_at;
use crate::scan::spec_skip_ws;
use crate::scan::spec_number_micro_at;
use crate::scan::match_at;
use crate::scan::skip_ws;
use crate::scan::parse_number_micro;
use crate::text::spec_decimal;
use crate::text::decimal_string;

verus! {

/// Parameters of one benchmark run.
#[derive(Debug)]
pub struct ProfilerConfig {
    /// Size of data to process, in GiB.
    pub data_size: u32,
    /// Duration of the run, in seconds.
    pub duration: u32,
    /// Optional caller-supplied data file; a fresh temporary one is
    /// used — and cleaned up — when absent.
    pub data_file: Option<String>,
}

/// The parsed result of one benchmark run, built only from a zero exit
/// status.  The measured figures are in millionths: `time_s_micros` is
/// microseconds, `speed_gib_s_micros` is millionths of a GiB per
/// second.
#[derive(Debug)]
pub struct ProfilerResult {
    pub nonces: u32,
    pub threads: u32,
    pub time_s_micros: u64,
    pub speed_gib_s_micros: u64,
    pub data_size: u32,
    pub duration: u32,
    pub data_file: Option<String>,
}

/// Default benchmark parameters: 1 GiB for 10 seconds, no custom file.
pub fn get_default_config() -> (c: ProfilerConfig)
    ensures
        c.data_size == 1,
        c.duration == 10,
        c.data_file is None,
{
    ProfilerConfig { data_size: 1, duration: 10, data_file: None }
}

/// Error text for a zero nonce count.
pub open spec fn spec_nonces_required_error() -> Seq<char> {
    "Nonces parameter is required"@
}

/// Error text for a nonce count off the sixteen-nonce granularity.
pub open spec fn spec_nonces_granularity_error() -> Seq<char> {
    "Nonces must be a multiple of 16"@
}

/// Checks the repetition parameter: it must be non-zero and a multiple
/// of the worker's sixteen-nonce granularity.
pub fn validate_nonces(nonces: u32) -> (r: Result<(), String>)
    ensures
        nonces == 0 ==> (r matches Err(e) && e@ == spec_nonces_required_error()),
        nonces != 0 && nonces % 16 != 0 ==> (r matches Err(e) && e@
            == spec_nonces_granularity_error()),
        nonces != 0 && nonces % 16 == 0 ==> r is Ok,
{
    if nonces == 0 {
        return Err(String::from_str("Nonces parameter is required"));
    }
    if nonces % 16 != 0 {
        return Err(String::from_str("Nonces must be a multiple of 16"));
    }
    Ok(())
}

/// The worker's argument vector for one benchmark run, in the exact
/// order the unmodified binary expects.
pub open spec fn spec_profiler_args(
    threads: u32,
    nonces: u32,
    data_file: Seq<char>,
    data_size: u32,
    duration: u32,
) -> Seq<Seq<char>> {
    seq![
        "--threads"@,
        spec_decimal(threads as nat),
        "--nonces"@,
        spec_decimal(nonces as nat),
        "--data-file"@,
        data_file,
        "--data-size"@,
        spec_decimal(data_size as nat),
        "--duration"@,
        spec_decimal(duration as nat),
    ]
}

/// Builds the worker's argument vector for one benchmark run.
pub fn build_profiler_args(
    threads: u32,
    nonces: u32,
    data_file: &str,
    data_size: u32,
    duration: u32,
) -> (args: Vec<String>)
    ensures
        args.deep_view() == spec_profiler_args(
            threads,
            nonces,
            data_file@,
            data_size,
            duration,
        ),
{
    let mut args: Vec<String> = Vec::new();
    args.push(String::from_str("--threads"));
    args.push(decimal_string(threads as u64));
    args.push(String::from_str("--nonces"));
    args.push(decimal_string(nonces as u64));
    args.push(String::from_str("--data-file"));
    args.push(String::from_str(data_file));
    args.push(String::from_str("--data-size"));
    args.push(decimal_string(data_size as u64));
    args.push(String::from_str("--duration"));
    args.push(decimal_string(duration as u64));
    proof {
        assert(args.deep_view() =~~= spec_profiler_args(
            threads,
            nonces,
            data_file@,
            data_size,
            duration,
        ));
    }
    args
}

/// The bytes of `"time_s"`, the key of the measured seconds.
pub open spec fn spec_time_key() -> Seq<u8> {
    seq![116u8, 105u8, 109u8, 101u8, 95u8, 115u8]
}

/// The bytes of `"speed_gib_s"`, the key of the measured throughput.
pub open spec fn spec_speed_key() -> Seq<u8> {
    seq![
        115u8,
        112u8,
        101u8,
        101u8,
        100u8,
        95u8,
        103u8,
        105u8,
        98u8,
        95u8,
        115u8,
    ]
}

/// A colon stands (after whitespace) at or after index `i`.
pub open spec fn has_colon_after(s: Seq<u8>, i: int) -> bool
    recommends
        0 <= i <= s.len(),
{
    let c = spec_skip_ws(s, i);
    c < s.len() && s[c] == 58
}

/// The first index at or after `i` where the quoted form of `key`
/// occurs with a colon after it.  An occurrence without a colon — the
/// key inside some other string value, say — does not count.
pub open spec fn spec_key_colon_pos(s: Seq<u8>, key: Seq<u8>, i: int) -> Option<int>
    decreases s.len() - i,
    when 0 <= i <= s.len()
{
    let quoted = seq![34u8] + key + seq![34u8];
    if i + quoted.len() <= s.len() {
        if matches_at(s, quoted, i) && has_colon_after(s, i + quoted.len()) {
            Some(i)
        } else {
            spec_key_colon_pos(s, key, i + 1)
        }
    } else {
        None
    }
}

/// The value, in millionths, of the field `key` in the worker output
/// `s`: the decimal number token after the first colon-bearing
/// occurrence of the quoted key, whitespace allowed around the colon.
pub open spec fn spec_json_field_micro(s: Seq<u8>, key: Seq<u8>) -> Option<nat> {
    match spec_key_colon_pos(s, key, 0) {
        None => None,
        Some(i) => {
            let colon = spec_skip_ws(s, i + key.len() + 2);
            spec_number_micro_at(s, spec_skip_ws(s, colon + 1))
        },
    }
}

/// The quoted form of `key`: a double quote on either side.
fn quoted_key(key: &[u8]) -> (r: Vec<u8>)
    ensures
        r@ == seq![34u8] + key@ + seq![34u8],
{
    let mut r: Vec<u8> = Vec::new();
    r.push(34);
    let n: usize = key.len();
    let mut i: usize = 0;
    while i < n
        invariant
            n == key@.len(),
            0 <= i <= n,
            r@ =~= seq![34u8] + key@.take(i as int),
        decreases n - i,
    {
        r.push(key[i]);
        proof {
            assert(r@ =~= seq![34u8] + key@.take(i + 1));
        }
        i = i + 1;
    }
    r.push(34);
    proof {
        assert(key@.take(n as int) =~= key@);
        assert(r@ =~= seq![34u8] + key@ + seq![34u8]);
    }
    r
}

/// Reads the field `key` of the worker output `s`, in millionths.
/// `None` when no colon-bearing occurrence of the key exists, the
/// number token is missing or exponent-formed, or the value exceeds the
/// fixed-point range.
pub fn extract_json_field_micro(s: &[u8], key: &[u8]) -> (r: Option<u64>)
    ensures
        match r {
            Some(v) => spec_json_field_micro(s@, key@) == Some(v as nat),
            None => spec_json_field_micro(s@, key@) is None || (spec_json_field_micro(
                s@,
                key@,
            ) matches Some(n) && n > u64::MAX),
        },
{
    let quoted = quoted_key(key);
    let slen: usize = s.len();
    if quoted.len() > slen {
        return None;
    }
    let last_start: usize = slen - quoted.len();
    let mut i: usize = 0;
    while i <= last_start
        invariant
            quoted@ == seq![34u8] + key@ + seq![34u8],
            2 <= quoted@.len() <= s@.len(),
            slen == s@.len(),
            last_start == s@.len() - quoted@.len(),
            last_start < slen,
            0 <= i <= last_start + 1,
            spec_key_colon_pos(s@, key@, 0) == spec_key_colon_pos(s@, key@, i as int),
        decreases last_start + 1 - i,
    {
        if match_at(s, quoted.as_slice(), i) {
            let after_key: usize = i + quoted.len();
            let colon: usize = skip_ws(s, after_key);
            if colon < slen && s[colon] == 58 {
                proof {
                    assert(spec_key_colon_pos(s@, key@, i as int) == Some(i as int));
                }
                let number_start: usize = skip_ws(s, colon + 1);
                return parse_number_micro(s, number_start);
            }
        }
        proof {
            assert(spec_key_colon_pos(s@, key@, i as int) == spec_key_colon_pos(
                s@,
                key@,
                i + 1,
            ));
        }
        i = i + 1;
    }
    None
}

/// Error text for a missing or unreadable `time_s` field.
pub open spec fn spec_missing_time_error() -> Seq<char> {
    "Missing time_s in output"@
}

/// Error text for a missing or unreadable `speed_gib_s` field.
pub open spec fn spec_missing_speed_error() -> Seq<char> {
    "Missing speed_gib_s in output"@
}

fn time_key() -> (r: Vec<u8>)
    ensures
        r@ == spec_time_key(),
{
    let mut r: Vec<u8> = Vec::new();
    r.push(116);
    r.push(105);
    r.push(109);
    r.push(101);
    r.push(95);
    r.push(115);
    proof {
        assert(r@ =~= spec_time_key());
    }
    r
}

fn speed_key() -> (r: Vec<u8>)
    ensures
        r@ == spec_speed_key(),
{
    let mut r: Vec<u8> = Vec::new();
    r.push(115);
    r.push(112);
    r.push(101);
    r.push(101);
    r.push(100);
    r.push(95);
    r.push(103);
    r.push(105);
    r.push(98);
    r.push(95);
    r.push(115);
    proof {
        assert(r@ =~= spec_speed_key());
    }
    r
}

/// Whether the field `key` reads as a figure that fits the fixed-point
/// range.
pub open spec fn spec_field_readable(s: Seq<u8>, key: Seq<u8>) -> bool {
    spec_json_field_micro(s, key) matches Some(n) && n <= u64::MAX
}

/// Reads the two measured figures — seconds and GiB per second, both in
/// millionths — from the worker's stdout, the time first.
pub fn parse_profiler_measurements(stdout: &[u8]) -> (r: Result<(u64, u64), String>)
    ensures
        match r {
            Ok(figures) => spec_json_field_micro(stdout@, spec_time_key()) == Some(
                figures.0 as nat,
            ) && spec_json_field_micro(stdout@, spec_speed_key()) == Some(figures.1 as nat),
            Err(e) => (!spec_field_readable(stdout@, spec_time_key()) && e@
                == spec_missing_time_error()) || (spec_field_readable(stdout@, spec_time_key())
                && !spec_field_readable(stdout@, spec_speed_key()) && e@
                == spec_missing_speed_error()),
        },
{
    let tk = time_key();
    let time_micros: u64 = match extract_json_field_micro(stdout, tk.as_slice()) {
        Some(v) => v,
        None => {
            return Err(String::from_str("Missing time_s in output"));
        },
    };
    let sk = speed_key();
    let speed_micros: u64 = match extract_json_field_micro(stdout, sk.as_slice()) {
        Some(v) => v,
        None => {
            return Err(String::from_str("Missing speed_gib_s in output"));
        },
    };
    Ok((time_micros, speed_micros))
}

/// Interprets one attached benchmark invocation: a non-zero exit status
/// is an error carrying the stderr text verbatim; on a zero status the
/// measured figures are read from stdout and combined with the run's
/// parameters.  A result is never built from a failed run.
pub fn interpret_profiler_output(
    exit_success: bool,
    stdout: &[u8],
    stderr: String,
    nonces: u32,
    threads: u32,
    config: ProfilerConfig,
) -> (r: Result<ProfilerResult, String>)
    ensures
        !exit_success ==> r == Err::<ProfilerResult, String>(stderr),
        exit_success ==> match r {
            Ok(res) => spec_json_field_micro(stdout@, spec_time_key()) == Some(
                res.time_s_micros as nat,
            ) && spec_json_field_micro(stdout@, spec_speed_key()) == Some(
                res.speed_gib_s_micros as nat,
            ) && res.nonces == nonces && res.threads == threads && res.data_size
                == config.data_size && res.duration == config.duration && res.data_file
                == config.data_file,
            Err(e) => (!spec_field_readable(stdout@, spec_time_key()) && e@
                == spec_missing_time_error()) || (spec_field_readable(stdout@, spec_time_key())
                && !spec_field_readable(stdout@, spec_speed_key()) && e@
                == spec_missing_speed_error()),
        },
{
    if !exit_success {
        return Err(stderr);
    }
    match parse_profiler_measurements(stdout) {
        Ok(figures) => Ok(
            ProfilerResult {
                nonces,
                threads,
                time_s_micros: figures.0,
                speed_gib_s_micros: figures.1,
                data_size: config.data_size,
                duration: config.duration,
                data_file: config.data_file,
            },
        ),
        Err(e) => Err(e),
    }
}

} // verus!
