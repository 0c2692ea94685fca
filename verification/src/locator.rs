//! Resolution of the absolute path of a named worker binary.  The
//! binaries are bundled, never taken from the system search path: a
//! candidate lives under `bin/<name>/<name>` below a search root — the
//! host's bundled resource directory first, the working directory
//! second — with the platform executable suffix appended.  Whether a
//! candidate exists on disk is the host's file-system probe; choosing
//! among the probed candidates is verified here.

use vstd::prelude::*;
use vstd::string::StringExecFns;

verus! {

/// The platform executable suffix: `.exe` on the Windows family,
/// nothing elsewhere.
pub open spec fn spec_executable_suffix(windows: bool) -> Seq<char> {
    if windows {
        ".exe"@
    } else {
        ""@
    }
}

/// The candidate path of the binary `name` under the search root
/// `root`: `<root>/bin/<name>/<name><suffix>`.
pub open spec fn spec_candidate_path(root: Seq<char>, name: Seq<char>, windows: bool) -> Seq<
    char,
> {
    root + "/bin/"@ + name + "/"@ + name + spec_executable_suffix(windows)
}

/// Error text for a binary found at no candidate, naming the last
/// attempted path.
pub open spec fn spec_binary_missing_error(name: Seq<char>, attempted: Seq<char>) -> Seq<char> {
    name + " executable not found at "@ + attempted
        + ". Please ensure it's installed in the bin directory."@
}

/// Builds the candidate path of `name` under `root`.
pub fn candidate_path(root: &str, name: &str, windows: bool) -> (r: String)
    ensures
        r@ == spec_candidate_path(root@, name@, windows),
{
    let r = String::from_str(root);
    let r = r.concat("/bin/");
    let r = r.concat(name);
    let r = r.concat("/");
    let r = r.concat(name);
    let r = if windows {
        r.concat(".exe")
    } else {
        r
    };
    proof {
        if !windows {
            reveal_strlit("");
            assert(r@ =~= spec_candidate_path(root@, name@, windows));
        } else {
            assert(r@ =~= spec_candidate_path(root@, name@, windows));
        }
    }
    r
}

/// The candidate paths of `name`, in search order: the bundled resource
/// directory when the host supplies one, then the working directory.
pub fn candidate_paths(resource_dir: &Option<String>, cwd: &str, name: &str, windows: bool) -> (r:
    Vec<String>)
    ensures
        match resource_dir {
            Some(rd) => r@.len() == 2 && r@[0]@ == spec_candidate_path(rd@, name@, windows)
                && r@[1]@ == spec_candidate_path(cwd@, name@, windows),
            None => r@.len() == 1 && r@[0]@ == spec_candidate_path(cwd@, name@, windows),
        },
{
    let mut r: Vec<String> = Vec::new();
    match resource_dir {
        Some(rd) => {
            r.push(candidate_path(rd.as_str(), name, windows));
        },
        None => {},
    }
    r.push(candidate_path(cwd, name, windows));
    r
}

/// Picks the first candidate that the host's probe found on disk; when
/// none exists, an error naming the binary and the last attempted path.
pub fn resolve_from_probes(name: &str, candidates: &Vec<String>, found: &Vec<bool>) -> (r: Result<
    String,
    String,
>)
    requires
        candidates@.len() == found@.len(),
        candidates@.len() >= 1,
    ensures
        match r {
            Ok(path) => exists|i: int|
                0 <= i < candidates@.len() && found@[i] && path@ == candidates@[i]@ && forall|
                    j: int,
                |
                    0 <= j < i ==> !found@[j],
            Err(e) => (forall|i: int| 0 <= i < found@.len() ==> !found@[i]) && e@
                == spec_binary_missing_error(
                name@,
                candidates@[candidates@.len() - 1]@,
            ),
        },
{
    let n: usize = candidates.len();
    let mut i: usize = 0;
    while i < n
        invariant
            n == candidates@.len() == found@.len(),
            n >= 1,
            0 <= i <= n,
            forall|j: int| 0 <= j < i ==> !found@[j],
        decreases n - i,
    {
        if found[i] {
            let path = candidates[i].clone();
            return Ok(path);
        }
        i = i + 1;
    }
    let m = String::from_str(name);
    let m = m.concat(" executable not found at ");
    let m = m.concat(candidates[n - 1].as_str());
    let m = m.concat(". Please ensure it's installed in the bin directory.");
    proof {
        assert(m@ =~= spec_binary_missing_error(name@, candidates@[candidates@.len() - 1]@));
    }
    Err(m)
}

/// The candidate path of the initializer binary under the working
/// directory: `<cwd>/bin/postcli/postcli`, with the platform suffix.
pub fn get_postcli_path(cwd: &str, windows: bool) -> (r: String)
    ensures
        r@ == spec_candidate_path(cwd@, "postcli"@, windows),
{
    candidate_path(cwd, "postcli", windows)
}

} // verus!
