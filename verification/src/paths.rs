//! Resolution of the sidecar server script path.
//!
//! In development mode the script sits at a fixed path relative to the
//! working directory. In production mode the directory of the running
//! executable is taken, and the bundled-resources candidate is preferred
//! when it exists on disk, else the sibling `bin` directory. This is a
//! two-candidate existence check, not a search; the host checks the disk
//! and passes the answer in.

use vstd::prelude::*;

verus! {

/// Which strategy resolves the path of the sidecar server script.
#[derive(Clone, Copy, PartialEq, Eq, Structural, Debug)]
pub enum BuildMode {
    Development,
    Production,
}

/// Script path used in development mode, relative to the working directory.
pub open spec fn dev_script_rel() -> Seq<char> {
    "../../electron/server.mjs"@
}

/// Suffix appended to the executable's directory for the bundled-resources
/// candidate (application-bundle layout).
pub open spec fn resources_suffix() -> Seq<char> {
    "/../Resources/bin/server.mjs"@
}

/// Suffix appended to the executable's directory for the sibling-bin
/// fallback.
pub open spec fn bin_suffix() -> Seq<char> {
    "/bin/server.mjs"@
}

/// The script path the supervisor runs, as a function of the build mode, the
/// directory of the running executable, and whether the bundled-resources
/// candidate exists on disk. Development mode ignores the latter two.
pub open spec fn resolved_script(
    mode: BuildMode,
    exe_dir: Seq<char>,
    resources_exists: bool,
) -> Seq<char> {
    match mode {
        BuildMode::Development => dev_script_rel(),
        BuildMode::Production => if resources_exists {
            exe_dir + resources_suffix()
        } else {
            exe_dir + bin_suffix()
        },
    }
}

/// The fixed development-mode script path.
pub fn dev_script_path() -> (r: String)
    ensures
        r@ == dev_script_rel(),
{
    String::from_str("../../electron/server.mjs")
}

/// The bundled-resources candidate for the given executable directory. The
/// host checks whether this path exists before resolving in production mode.
pub fn resources_candidate(exe_dir: &str) -> (r: String)
    ensures
        r@ == exe_dir@ + resources_suffix(),
{
    let mut r = String::from_str(exe_dir);
    r.append("/../Resources/bin/server.mjs");
    r
}

/// The sibling-bin fallback for the given executable directory.
pub fn bin_candidate(exe_dir: &str) -> (r: String)
    ensures
        r@ == exe_dir@ + bin_suffix(),
{
    let mut r = String::from_str(exe_dir);
    r.append("/bin/server.mjs");
    r
}

/// Resolve the script path: in development the fixed relative path, whatever
/// the executable's location; in production the bundled-resources candidate
/// when it exists, else the sibling-bin fallback.
pub fn resolve_script_path(mode: BuildMode, exe_dir: &str, resources_exists: bool) -> (r: String)
    ensures
        r@ == resolved_script(mode, exe_dir@, resources_exists),
{
    match mode {
        BuildMode::Development => dev_script_path(),
        BuildMode::Production => if resources_exists {
            resources_candidate(exe_dir)
        } else {
            bin_candidate(exe_dir)
        },
    }
}

} // verus!
