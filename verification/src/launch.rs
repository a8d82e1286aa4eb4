//! The command line that spawns the sidecar: the script runs under the
//! `node` interpreter with one flag that enables module loading in the
//! child runtime. The host passes the plan to the OS with the child's
//! standard output and error captured; this crate does not inspect them.

use vstd::prelude::*;
use crate::paths::{BuildMode, resolve_script_path, resolved_script};

verus! {

/// Name of the interpreter that runs the sidecar script.
pub open spec fn interpreter_name() -> Seq<char> {
    "node"@
}

/// Interpreter flag that enables module loading in the child runtime.
pub open spec fn module_flag() -> Seq<char> {
    "--experimental-modules"@
}

/// Everything the host needs to spawn the sidecar: the interpreter and its
/// argument list.
pub struct SpawnPlan {
    pub program: String,
    pub args: Vec<String>,
}

impl SpawnPlan {
    /// The plan runs the given script under the interpreter with exactly
    /// the module flag before it.
    pub open spec fn runs_script(&self, script: Seq<char>) -> bool {
        &&& self.program@ == interpreter_name()
        &&& self.args@.len() == 2
        &&& self.args@[0]@ == module_flag()
        &&& self.args@[1]@ == script
    }
}

/// The command line for the given script:
/// `node --experimental-modules <script>`.
pub fn spawn_plan(script: &str) -> (r: SpawnPlan)
    ensures
        r.runs_script(script@),
{
    let program = String::from_str("node");
    let mut args: Vec<String> = Vec::new();
    args.push(String::from_str("--experimental-modules"));
    args.push(String::from_str(script));
    SpawnPlan { program, args }
}

/// Resolve the script path for the mode and build the command line that
/// spawns it, in one step.
pub fn launch_plan(mode: BuildMode, exe_dir: &str, resources_exists: bool) -> (r: SpawnPlan)
    ensures
        r.runs_script(resolved_script(mode, exe_dir@, resources_exists)),
{
    let script = resolve_script_path(mode, exe_dir, resources_exists);
    spawn_plan(script.as_str())
}

} // verus!
