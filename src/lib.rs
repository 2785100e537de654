//! Process spawning and supervision for a script runtime's `child_process`
//! module: building the command from a caller's arguments and options, routing the
//! standard streams, deciding each step of the wait-and-kill loop, and sequencing
//! the `exit` and `close` notifications around the output pipes.
use vstd::prelude::*;

pub mod command;
pub mod exec;
pub mod lifecycle;
pub mod process;
pub mod signal;
pub mod stdio;
pub mod supervisor;
pub mod text;

verus! {

/// The `child_process` module of the runtime.
pub struct ChildProcessModule;

impl ChildProcessModule {
    /// The name under which the module is registered.
    pub fn name() -> (r: &'static str)
        ensures
            r@ == "child_process"@,
    {
        "child_process"
    }

    /// The names that the module declares.
    pub fn declarations() -> (r: Vec<String>)
        ensures
            command::views(r@) == seq!["spawn"@, "execFile"@, "default"@],
    {
        let r = vec![
            String::from_str("spawn"),
            String::from_str("execFile"),
            String::from_str("default"),
        ];
        proof {
            assert(command::views(r@) =~= seq!["spawn"@, "execFile"@, "default"@]);
        }
        r
    }

    /// The functions that the default export holds.
    pub fn exports() -> (r: Vec<String>)
        ensures
            command::views(r@) == seq!["spawn"@, "execFile"@],
    {
        let r = vec![String::from_str("spawn"), String::from_str("execFile")];
        proof {
            assert(command::views(r@) =~= seq!["spawn"@, "execFile"@]);
        }
        r
    }
}

} // verus!
