//! The ssh endpoint of Gerrit and the command that reaches it.
use vstd::prelude::*;

use crate::command_line::{push_arg, push_owned_arg, CommandLine};
use crate::text::{decimal, decimal_string};

verus! {

/// How to reach Gerrit over ssh.
#[derive(Clone, Debug)]
pub struct Config {
    pub user: String,
    pub host: String,
    pub port: Option<u16>,
    pub private_key_path: Option<String>,
}

/// The ssh options that precede the destination, and the destination
/// `user@host`.
pub open spec fn ssh_args(c: Config) -> Seq<Seq<char>> {
    let key = match c.private_key_path {
        Some(path) => seq!["-i"@, path@],
        None => Seq::<Seq<char>>::empty(),
    };
    let port = match c.port {
        Some(p) => seq!["-p"@, decimal(p as nat)],
        None => Seq::<Seq<char>>::empty(),
    };
    key + port + seq![
        "-o"@,
        "ServerAliveInterval=3"@,
        "-o"@,
        "ServerAliveCountMax=3"@,
        "-o"@,
        "ConnectTimeout=3"@,
        c.user@ + "@"@ + c.host@,
    ]
}

impl Config {
    /// The preconfigured `ssh` command: the key and port options when they
    /// are set, keep-alive and timeout options, and the destination. Callers
    /// append the remote command to its arguments.
    pub fn command(&self) -> (cmd: CommandLine)
        ensures
            cmd@.program == "ssh"@,
            cmd@.args == ssh_args(*self),
            cmd@.envs.len() == 0,
    {
        let mut args: Vec<String> = Vec::new();
        if let Some(path) = &self.private_key_path {
            push_arg(&mut args, "-i");
            push_arg(&mut args, path.as_str());
        }
        if let Some(port) = self.port {
            push_arg(&mut args, "-p");
            push_owned_arg(&mut args, decimal_string(port as u64));
        }
        push_arg(&mut args, "-o");
        push_arg(&mut args, "ServerAliveInterval=3");
        push_arg(&mut args, "-o");
        push_arg(&mut args, "ServerAliveCountMax=3");
        push_arg(&mut args, "-o");
        push_arg(&mut args, "ConnectTimeout=3");
        let mut destination = self.user.clone();
        destination.append("@");
        destination.append(self.host.as_str());
        push_owned_arg(&mut args, destination);
        let cmd = CommandLine { program: "ssh".to_owned(), args, envs: Vec::new() };
        proof {
            assert(cmd@.args =~= ssh_args(*self));
            assert(cmd@.envs =~= Seq::<(Seq<char>, Seq<char>)>::empty());
        }
        cmd
    }
}

} // verus!
