//! A program invocation described as plain values: the program, its
//! arguments and the environment variables set for it.
use vstd::prelude::*;

verus! {

/// A command to run: `program args...` with `envs` added to its environment.
#[derive(Clone, Debug)]
pub struct CommandLine {
    pub program: String,
    pub args: Vec<String>,
    pub envs: Vec<(String, String)>,
}

/// The mathematical content of a [`CommandLine`].
pub struct CommandLineView {
    pub program: Seq<char>,
    pub args: Seq<Seq<char>>,
    pub envs: Seq<(Seq<char>, Seq<char>)>,
}

/// The view of a list of environment variables.
pub open spec fn envs_view(envs: Seq<(String, String)>) -> Seq<(Seq<char>, Seq<char>)> {
    envs.map_values(|e: (String, String)| (e.0@, e.1@))
}

impl View for CommandLine {
    type V = CommandLineView;

    open spec fn view(&self) -> CommandLineView {
        CommandLineView {
            program: self.program@,
            args: self.args.deep_view(),
            envs: envs_view(self.envs@),
        }
    }
}

/// Appends a copy of `arg` to an argument list.
pub fn push_arg(args: &mut Vec<String>, arg: &str)
    ensures
        final(args).deep_view() == old(args).deep_view().push(arg@),
{
    args.push(arg.to_owned());
    proof {
        assert(args.deep_view() =~= old(args).deep_view().push(arg@));
    }
}

/// Appends `arg` to an argument list.
pub fn push_owned_arg(args: &mut Vec<String>, arg: String)
    ensures
        final(args).deep_view() == old(args).deep_view().push(arg@),
{
    args.push(arg);
    proof {
        assert(args.deep_view() =~= old(args).deep_view().push(arg@));
    }
}

} // verus!
