//! Script locator: turns a deployment mode and the outcome of the
//! resource-directory capability into the helper script's path.
//!
//! The locator only constructs a path; it never checks that a file
//! exists.  A missing script surfaces later, as a process-launch
//! failure.  Paths are plain strings joined with `/`, the separator
//! the deployment platform uses.

use vstd::prelude::*;
use vstd::string::*;

verus! {

/// Fixed location of the helper script relative to its deployment
/// root.  This suffix is a contract with the packaging step.
pub open spec fn script_suffix() -> Seq<char> {
    "sidecars/map_song.py"@
}

/// The path resolved in debug mode: the build-time source root with
/// the fixed suffix, joined by an explicit separator.
pub open spec fn debug_script_path(dev_root: Seq<char>) -> Seq<char> {
    dev_root + "/"@ + script_suffix()
}

/// Path join as used in release mode: a separator is inserted unless
/// the base is empty or already ends with one.
pub open spec fn spec_join(base: Seq<char>, rel: Seq<char>) -> Seq<char> {
    if base.len() == 0 {
        rel
    } else if base.last() == '/' {
        base + rel
    } else {
        base + "/"@ + rel
    }
}

/// The path resolved in release mode from resource directory `dir`.
pub open spec fn release_script_path(dir: Seq<char>) -> Seq<char> {
    spec_join(dir, script_suffix())
}

/// Join `rel` onto `base`, inserting a `/` separator when needed.
pub fn join_path(base: String, rel: &str) -> (r: String)
    ensures
        r@ == spec_join(base@, rel@),
{
    let n: usize = base.as_str().unicode_len();
    if n == 0 {
        String::from_str(rel)
    } else if base.as_str().get_char(n - 1) == '/' {
        base.concat(rel)
    } else {
        let with_sep = base.concat("/");
        with_sep.concat(rel)
    }
}

/// Resolve the on-disk path of the helper script.
///
/// In debug mode the result is a pure function of the build-time
/// source root `dev_root`; the resource-directory outcome is not
/// consulted and resolution cannot fail.  In release mode the outcome
/// of the resource-directory capability decides: a directory is
/// joined with the fixed suffix, and a failure message is passed
/// through unchanged as the locator's error.
pub fn resolve_script_path(
    debug_mode: bool,
    dev_root: &str,
    resource_dir: Result<String, String>,
) -> (r: Result<String, String>)
    ensures
        debug_mode ==> (r matches Ok(p) && p@ == debug_script_path(dev_root@)),
        !debug_mode ==> (match resource_dir {
            Ok(d) => r matches Ok(p) && p@ == release_script_path(d@),
            Err(m) => r matches Err(e) && e@ == m@,
        }),
{
    if debug_mode {
        let root = String::from_str(dev_root);
        let with_sep = root.concat("/");
        Ok(with_sep.concat("sidecars/map_song.py"))
    } else {
        match resource_dir {
            Ok(d) => Ok(join_path(d, "sidecars/map_song.py")),
            Err(m) => Err(m),
        }
    }
}

/// In debug mode the resolved path is a pure function of the
/// build-time root: any two resolutions from the same root agree.
pub proof fn lemma_debug_resolution_deterministic(
    root: Seq<char>,
    p1: Seq<char>,
    p2: Seq<char>,
)
    requires
        p1 == debug_script_path(root),
        p2 == debug_script_path(root),
    ensures
        p1 == p2,
{
}

} // verus!
