//! Interpretation of a worker invocation's outcome.  The spawn itself —
//! creating the child process, waiting, collecting the buffers — is the
//! host's operating-system work; what the buffers and the exit status
//! mean is decided here.

use vstd::prelude::*;
use vstd::string::StringExecFns;

use crate::text::spec_decimal;
use crate::text::decimal_string;

verus! {

/// The full buffered capture of an attached, non-streaming invocation.
#[derive(Debug)]
pub struct CommandOutput {
    pub stdout: String,
    pub stderr: String,
}

/// What a detached spawn hands back: the process id for later
/// termination, and a status line for display.
#[derive(Debug)]
pub struct DetachedProcessInfo {
    pub process_id: u32,
    pub message: String,
}

/// The status line of a fresh detached spawn.
pub open spec fn spec_detached_message(process_id: u32) -> Seq<char> {
    "POS data generation started in background with process ID: "@ + spec_decimal(
        process_id as nat,
    )
}

/// The outcome of an attached run: the captured buffers on a zero exit
/// status, the stderr text verbatim as the error on any other.  The
/// stdout buffer is not trusted on failure.
pub fn attached_outcome(exit_success: bool, stdout: String, stderr: String) -> (r: Result<
    CommandOutput,
    String,
>)
    ensures
        exit_success ==> (r matches Ok(o) && o.stdout == stdout && o.stderr == stderr),
        !exit_success ==> r == Err::<CommandOutput, String>(stderr),
{
    if exit_success {
        Ok(CommandOutput { stdout, stderr })
    } else {
        Err(stderr)
    }
}

/// The handle of a fresh detached spawn, with its status line.
pub fn detached_process_info(process_id: u32) -> (r: DetachedProcessInfo)
    ensures
        r.process_id == process_id,
        r.message@ == spec_detached_message(process_id),
{
    let message = String::from_str(
        "POS data generation started in background with process ID: ",
    ).concat(decimal_string(process_id as u64).as_str());
    DetachedProcessInfo { process_id, message }
}

} // verus!
