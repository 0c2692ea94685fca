//! Gating of a target directory before a long-running write job: does it
//! exist, can we write into it, and does its file system offer enough
//! free space for the required threshold.
//!
//! The file-system probes themselves (the existence test and the
//! marker-file write) are operating-system work that the host performs;
//! their outcomes come in here as plain values, and every decision made
//! from them is verified.  The free-space figure of the path's own file
//! system is queried here, through a trusted wrapper around the `nix`
//! crate's statvfs call.

use vstd::prelude::*;
use vstd::string::StringExecFns;

use crate::text::spec_gib_two_decimals;
use crate::text::format_gib_two_decimals;

verus! {

/// Default free-space threshold: 256 GiB.
pub const DEFAULT_REQUIRED_SPACE_BYTES: u64 = 256 * crate::GIB;

/// The outcome of validating one candidate directory.  Produced fresh
/// per call and immutable afterwards.
#[derive(Debug)]
pub struct DirectoryValidation {
    pub exists: bool,
    pub has_write_permission: bool,
    pub has_space: bool,
    pub available_space_bytes: u64,
    pub error: Option<String>,
}

impl DirectoryValidation {
    /// A validation never claims write permission or space for a
    /// directory it did not find, nor space for one it cannot write.
    pub open spec fn wf(self) -> bool {
        &&& !self.exists ==> !self.has_write_permission
        &&& !self.has_write_permission ==> !self.has_space
    }
}

/// Error text for a missing directory.
pub open spec fn spec_directory_missing_error() -> Seq<char> {
    "Directory does not exist"@
}

/// Error text for a failed write probe, carrying the OS error.
pub open spec fn spec_no_write_permission_error(os_error: Seq<char>) -> Seq<char> {
    "No write permission: "@ + os_error
}

/// Error text naming both the required and the available amount, the
/// available figure with two decimal places.
pub open spec fn spec_insufficient_space_error(required: u64, available: u64) -> Seq<char> {
    "Insufficient disk space. Required: "@ + spec_gib_two_decimals(required)
        + " GiB, Available: "@ + spec_gib_two_decimals(available) + " GiB"@
}

/// Error text for a free-space query that failed, carrying the detail.
pub open spec fn spec_space_check_failed_error(detail: Seq<char>) -> Seq<char> {
    "Failed to check disk space: "@ + detail
}

/// Error text of the query itself, carrying the OS error.
pub open spec fn spec_disk_query_failed_error(detail: Seq<char>) -> Seq<char> {
    "Failed to get disk info: "@ + detail
}

fn directory_missing_message() -> (m: String)
    ensures
        m@ == spec_directory_missing_error(),
        m@.len() > 0,
{
    proof {
        reveal_strlit("Directory does not exist");
    }
    String::from_str("Directory does not exist")
}

fn no_write_permission_message(os_error: &str) -> (m: String)
    ensures
        m@ == spec_no_write_permission_error(os_error@),
{
    String::from_str("No write permission: ").concat(os_error)
}

fn insufficient_space_message(required: u64, available: u64) -> (m: String)
    ensures
        m@ == spec_insufficient_space_error(required, available),
{
    let m = String::from_str("Insufficient disk space. Required: ");
    let m = m.concat(format_gib_two_decimals(required).as_str());
    let m = m.concat(" GiB, Available: ");
    let m = m.concat(format_gib_two_decimals(available).as_str());
    let m = m.concat(" GiB");
    proof {
        assert(m@ =~= spec_insufficient_space_error(required, available));
    }
    m
}

fn space_check_failed_message(detail: &str) -> (m: String)
    ensures
        m@ == spec_space_check_failed_error(detail@),
{
    String::from_str("Failed to check disk space: ").concat(detail)
}

fn disk_query_failed_message(detail: &str) -> (m: String)
    ensures
        m@ == spec_disk_query_failed_error(detail@),
{
    String::from_str("Failed to get disk info: ").concat(detail)
}

/// Relies on `nix::sys::statvfs::statvfs`: the statvfs figures of the
/// file system holding `path` — the block count available to this
/// unprivileged process (`f_bavail`, which honors reservations and
/// quotas) and the fragment size those blocks are counted in
/// (`f_frsize`) — or the errno text when the OS refuses.  The figures
/// depend on the machine at the moment of the call, so nothing is
/// promised of them.
#[verifier::external_body]
fn filesystem_available_blocks(path: &str) -> Result<(u64, u64), String> {
    match nix::sys::statvfs::statvfs(path) {
        Ok(stat) => Ok((stat.blocks_available() as u64, stat.fragment_size() as u64)),
        Err(e) => Err(format!("{}", e)),
    }
}

/// The byte count of a block figure: blocks times fragment size,
/// saturating at the largest byte count.
pub fn available_bytes_of(blocks: u64, fragment_size: u64) -> (b: u64)
    ensures
        blocks * fragment_size <= u64::MAX ==> b == blocks * fragment_size,
        blocks * fragment_size > u64::MAX ==> b == u64::MAX,
{
    assert((blocks as nat) * (fragment_size as nat) <= 0xFFFFFFFFFFFFFFFF
        * 0xFFFFFFFFFFFFFFFF) by (nonlinear_arith)
        requires
            blocks <= 0xFFFFFFFFFFFFFFFFu64,
            fragment_size <= 0xFFFFFFFFFFFFFFFFu64,
    ;
    let wide: u128 = (blocks as u128) * (fragment_size as u128);
    if wide > 0xFFFFFFFFFFFFFFFF {
        u64::MAX
    } else {
        wide as u64
    }
}

/// Queries the space available to the running user, in bytes, on the
/// file system holding `path`.  Whether the query succeeds, and with
/// what figures, the OS decides; a success is their product through
/// `available_bytes_of`, and a failure carries the exact error form.
pub fn get_available_space(path: &str) -> (r: Result<u64, String>)
    ensures
        r matches Err(e) ==> exists|detail: Seq<char>|
            e@ == spec_disk_query_failed_error(detail),
{
    match filesystem_available_blocks(path) {
        Ok(figures) => Ok(available_bytes_of(figures.0, figures.1)),
        Err(detail) => {
            let m = disk_query_failed_message(detail.as_str());
            proof {
                assert(m@ == spec_disk_query_failed_error(detail@));
            }
            Err(m)
        },
    }
}

/// Whether an available amount meets a required threshold.
pub fn has_enough_space(available_space_bytes: u64, required_space_bytes: u64) -> (r: bool)
    ensures
        r == (available_space_bytes >= required_space_bytes),
{
    available_space_bytes >= required_space_bytes
}

/// The full validation verdict, decided from the probe outcomes alone.
///
/// `is_existing_dir` is whether the path exists and is a directory;
/// `write_probe_error` is the OS error of the marker-file write, `None`
/// on success; `space_query` is the available-space figure or the error
/// of the query.  The checks short-circuit in that order.
pub fn assess_directory(
    is_existing_dir: bool,
    write_probe_error: Option<String>,
    space_query: Result<u64, String>,
    required_space_bytes: u64,
) -> (v: DirectoryValidation)
    ensures
        v.wf(),
        v.exists == is_existing_dir,
        !is_existing_dir ==> (!v.has_write_permission && !v.has_space
            && v.available_space_bytes == 0 && (v.error matches Some(e) && e@
            == spec_directory_missing_error() && e@.len() > 0)),
        is_existing_dir ==> v.has_write_permission == (write_probe_error is None),
        is_existing_dir ==> (write_probe_error matches Some(os) ==> (!v.has_space
            && v.available_space_bytes == 0 && (v.error matches Some(e) && e@
            == spec_no_write_permission_error(os@)))),
        (is_existing_dir && write_probe_error is None) ==> match space_query {
            Ok(available) => v.available_space_bytes == available && v.has_space == (available
                >= required_space_bytes) && (available >= required_space_bytes ==> v.error
                is None) && (available < required_space_bytes ==> (v.error matches Some(e) && e@
                == spec_insufficient_space_error(required_space_bytes, available))),
            Err(detail) => !v.has_space && v.available_space_bytes == 0 && (v.error matches Some(
                e,
            ) && e@ == spec_space_check_failed_error(detail@)),
        },
{
    if !is_existing_dir {
        return DirectoryValidation {
            exists: false,
            has_write_permission: false,
            has_space: false,
            available_space_bytes: 0,
            error: Some(directory_missing_message()),
        };
    }
    match write_probe_error {
        Some(os_error) => DirectoryValidation {
            exists: true,
            has_write_permission: false,
            has_space: false,
            available_space_bytes: 0,
            error: Some(no_write_permission_message(os_error.as_str())),
        },
        None => match space_query {
            Ok(available) => {
                if available >= required_space_bytes {
                    DirectoryValidation {
                        exists: true,
                        has_write_permission: true,
                        has_space: true,
                        available_space_bytes: available,
                        error: None,
                    }
                } else {
                    DirectoryValidation {
                        exists: true,
                        has_write_permission: true,
                        has_space: false,
                        available_space_bytes: available,
                        error: Some(
                            insufficient_space_message(required_space_bytes, available),
                        ),
                    }
                }
            },
            Err(detail) => DirectoryValidation {
                exists: true,
                has_write_permission: true,
                has_space: false,
                available_space_bytes: 0,
                error: Some(space_check_failed_message(detail.as_str())),
            },
        },
    }
}

/// Validates a directory for use as the target of a write job: the
/// existence and write-probe outcomes come from the host, the free
/// space is queried here.  The space check runs only when the earlier
/// checks passed.
pub fn verify_directory(
    path: &str,
    is_existing_dir: bool,
    write_probe_error: Option<String>,
    required_space_bytes: u64,
) -> (v: DirectoryValidation)
    ensures
        v.wf(),
        v.exists == is_existing_dir,
        !is_existing_dir ==> (!v.has_write_permission && !v.has_space
            && v.available_space_bytes == 0 && (v.error matches Some(e) && e@
            == spec_directory_missing_error() && e@.len() > 0)),
        is_existing_dir ==> v.has_write_permission == (write_probe_error is None),
        is_existing_dir ==> (write_probe_error matches Some(os) ==> (!v.has_space
            && v.available_space_bytes == 0 && (v.error matches Some(e) && e@
            == spec_no_write_permission_error(os@)))),
        (is_existing_dir && write_probe_error is None) ==> (v.has_space
            ==> v.available_space_bytes >= required_space_bytes && v.error is None) && (
        !v.has_space ==> (v.error matches Some(e) && (e@ == spec_insufficient_space_error(
            required_space_bytes,
            v.available_space_bytes,
        ) || exists|detail: Seq<char>| e@ == spec_space_check_failed_error(detail)))),
{
    if !is_existing_dir {
        return assess_directory(false, None, Ok(0), required_space_bytes);
    }
    if write_probe_error.is_some() {
        return assess_directory(true, write_probe_error, Ok(0), required_space_bytes);
    }
    let space_query = get_available_space(path);
    assess_directory(true, None, space_query, required_space_bytes)
}

/// Whether the directory's file system offers at least the required
/// free space; an error when the directory is missing or the space
/// query failed.
pub fn check_directory_space(
    path: &str,
    is_existing_dir: bool,
    required_space_bytes: u64,
) -> (r: Result<bool, String>)
    ensures
        !is_existing_dir ==> (r matches Err(e) && e@ == spec_directory_missing_error()),
        is_existing_dir ==> (r matches Err(e) ==> exists|detail: Seq<char>|
            e@ == spec_space_check_failed_error(detail)),
{
    if !is_existing_dir {
        return Err(directory_missing_message());
    }
    match get_available_space(path) {
        Ok(available) => Ok(has_enough_space(available, required_space_bytes)),
        Err(detail) => {
            let m = space_check_failed_message(detail.as_str());
            proof {
                assert(m@ == spec_space_check_failed_error(detail@));
            }
            Err(m)
        },
    }
}

/// Whether the write probe succeeded; an error when the directory is
/// missing.  The probe itself — creating and removing a marker file —
/// is the host's file-system work.
pub fn check_write_permission(is_existing_dir: bool, probe_succeeded: bool) -> (r: Result<
    bool,
    String,
>)
    ensures
        !is_existing_dir ==> (r matches Err(e) && e@ == spec_directory_missing_error()),
        is_existing_dir ==> r == Ok::<bool, String>(probe_succeeded),
{
    if !is_existing_dir {
        return Err(directory_missing_message());
    }
    Ok(probe_succeeded)
}

} // verus!
