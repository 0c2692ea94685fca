//! Cancellation of a detached worker by its raw process id.  No handle
//! registry exists on purpose: a worker outlives the session that
//! spawned it, so termination must work from the externally stored id
//! alone.
//!
//! On POSIX targets the request is a graceful SIGTERM, sent here through
//! a trusted wrapper; the Windows family has no signal equivalent and
//! uses the host's forced-termination primitive instead.  Requesting
//! termination of an id with no live process yields an error naming the
//! id, never a crash, and repeating the request is harmless.

use vstd::prelude::*;
use vstd::string::StringExecFns;

use crate::text::spec_decimal;
use crate::text::decimal_string;

verus! {

/// Status line of a termination request the OS accepted.
pub open spec fn spec_terminated_message(process_id: u32) -> Seq<char> {
    "Successfully terminated process "@ + spec_decimal(process_id as nat)
}

/// Error text of a refused termination request, carrying the reason.
pub open spec fn spec_terminate_failed_message(process_id: u32, detail: Seq<char>) -> Seq<
    char,
> {
    "Failed to terminate process "@ + spec_decimal(process_id as nat) + ": "@ + detail
}

/// Relies on `nix::sys::signal::kill`: sends SIGTERM to the process
/// `pid`, returning the errno text when the OS refuses.  A positive pid
/// addresses one process, never a process group.  Whether the request
/// succeeds depends on the live process table at the moment of the
/// call, so nothing is promised of the outcome.
#[verifier::external_body]
fn send_sigterm(pid: i32) -> Result<(), String>
    requires
        1 <= pid,
{
    match nix::sys::signal::kill(
        nix::unistd::Pid::from_raw(pid),
        nix::sys::signal::Signal::SIGTERM,
    ) {
        Ok(()) => Ok(()),
        Err(e) => Err(format!("{}", e)),
    }
}

fn terminate_failed_message(process_id: u32, detail: &str) -> (m: String)
    ensures
        m@ == spec_terminate_failed_message(process_id, detail@),
{
    let m = String::from_str("Failed to terminate process ");
    let m = m.concat(decimal_string(process_id as u64).as_str());
    let m = m.concat(": ");
    let m = m.concat(detail);
    proof {
        assert(m@ =~= spec_terminate_failed_message(process_id, detail@));
    }
    m
}

/// Requests graceful termination of the worker with the given process
/// id.  An id that cannot address a single process — zero, or beyond
/// the signed pid range — is refused here without touching the OS.
pub fn stop_postcli_process(pid: u32) -> (r: Result<String, String>)
    ensures
        r matches Ok(m) ==> m@ == spec_terminated_message(pid),
        r matches Err(m) ==> exists|detail: Seq<char>|
            m@ == spec_terminate_failed_message(pid, detail),
        (pid == 0 || pid > 0x7FFFFFFF) ==> (r matches Err(m) && m@
            == spec_terminate_failed_message(pid, "invalid process id"@)),
{
    if pid == 0 || pid > 0x7FFFFFFF {
        let m = terminate_failed_message(pid, "invalid process id");
        proof {
            assert(m@ == spec_terminate_failed_message(pid, "invalid process id"@));
        }
        return Err(m);
    }
    match send_sigterm(pid as i32) {
        Ok(()) => {
            let m = String::from_str("Successfully terminated process ").concat(
                decimal_string(pid as u64).as_str(),
            );
            Ok(m)
        },
        Err(detail) => {
            let m = terminate_failed_message(pid, detail.as_str());
            proof {
                assert(m@ == spec_terminate_failed_message(pid, detail@));
            }
            Err(m)
        },
    }
}

} // verus!
