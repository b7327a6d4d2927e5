//! The events that Gerrit's `stream-events` command reports, and that
//! command.
pub mod models;

pub use models::Event;

use vstd::prelude::*;

use crate::command_line::{push_arg, CommandLine};
use crate::config::Config;
use crate::ssh::ssh_args;

verus! {

/// The command that streams Gerrit's events: Gerrit's ssh command followed
/// by `gerrit stream-events`.
pub fn stream_events_command(config: &Config) -> (cmd: CommandLine)
    ensures
        cmd@.program == "ssh"@,
        cmd@.args == ssh_args(config.gerrit.ssh) + seq!["gerrit"@, "stream-events"@],
        cmd@.envs.len() == 0,
{
    let mut command = config.gerrit.ssh.command();
    let ghost base = command@.args;
    push_arg(&mut command.args, "gerrit");
    push_arg(&mut command.args, "stream-events");
    proof {
        assert(command@.args =~= base + seq!["gerrit"@, "stream-events"@]);
    }
    command
}

} // verus!
