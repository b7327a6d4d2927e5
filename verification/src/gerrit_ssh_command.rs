//! Reviews sent to Gerrit over its ssh command interface.
use vstd::prelude::*;
use vstd::string::*;
use vstd::utf8::*;

use crate::command_line::{push_arg, push_owned_arg, CommandLine};
use crate::config;
use crate::gerrit_stream_events::models::{Change, Patchset};
use crate::ssh::ssh_args;
use crate::text::{decimal, decimal_string};

verus! {

/// Sends reviews to Gerrit.
pub struct GerritSshCommand {
    pub config: config::Config,
}

/// The vote on the `Verified` label that a review carries.
#[derive(Clone, Copy, Debug, PartialEq, Eq, Structural)]
pub enum Verified {
    Reset,
    Positive,
    Negative,
}

impl Default for Verified {
    fn default() -> (v: Self)
        ensures
            v == Verified::Reset,
    {
        Verified::Reset
    }
}

/// A review: a message, and optionally a vote on the `Verified` label.
#[derive(Clone, Debug)]
pub struct Review {
    pub message: String,
    pub verified: Option<Verified>,
}

/// The mathematical content of a [`Review`].
pub struct ReviewView {
    pub message: Seq<char>,
    pub verified: Option<Verified>,
}

impl View for Review {
    type V = ReviewView;

    open spec fn view(&self) -> ReviewView {
        ReviewView { message: self.message@, verified: self.verified }
    }
}

impl Default for Review {
    fn default() -> (r: Self)
        ensures
            r.message@ == Seq::<char>::empty(),
            r.verified is None,
    {
        Review { message: String::new(), verified: None }
    }
}

/// The value a vote gives the `Verified` label.
pub open spec fn label_value(v: Verified) -> Seq<char> {
    match v {
        Verified::Reset => "0"@,
        Verified::Positive => "+1"@,
        Verified::Negative => "-1"@,
    }
}

/// The arguments of `gerrit review` that post `review` on patchset
/// `patchset_number` of change `change_number`: the quoted message, the
/// label when the review votes, and `change,patchset`.
pub open spec fn review_args(change_number: u64, patchset_number: u64, review: ReviewView) -> Seq<Seq<char>> {
    let label = match review.verified {
        Some(v) => seq!["--label"@, "Verified="@ + label_value(v)],
        None => Seq::<Seq<char>>::empty(),
    };
    seq!["gerrit"@, "review"@, "--message"@, "\""@ + review.message + "\""@] + label + seq![
        decimal(change_number as nat) + ","@ + decimal(patchset_number as nat),
    ]
}

fn label_str(v: Verified) -> (s: &'static str)
    ensures
        s@ == label_value(v),
{
    match v {
        Verified::Reset => "0",
        Verified::Positive => "+1",
        Verified::Negative => "-1",
    }
}

impl GerritSshCommand {
    pub fn new(config: config::Config) -> (c: Self)
        ensures
            c.config == config,
    {
        GerritSshCommand { config }
    }

    /// The command that posts `review` on `patchset` of `change`: Gerrit's
    /// ssh command followed by the `gerrit review` arguments. A review is
    /// logged under the change's short id and revision, their first seven
    /// bytes, which must end on a character boundary.
    pub fn review_command(&self, change: &Change, patchset: &Patchset, review: &Review) -> (cmd: CommandLine)
        requires
            is_char_boundary(encode_utf8(change.id@), 7),
            is_char_boundary(encode_utf8(patchset.revision@), 7),
        ensures
            cmd@.program == "ssh"@,
            cmd@.args == ssh_args(self.config.gerrit.ssh) + review_args(change.number, patchset.number, review@),
            cmd@.envs.len() == 0,
    {
        let mut command = self.config.gerrit.ssh.command();
        let ghost base = command@.args;
        push_arg(&mut command.args, "gerrit");
        push_arg(&mut command.args, "review");
        push_arg(&mut command.args, "--message");
        let mut message = "\"".to_owned();
        message.append(review.message.as_str());
        message.append("\"");
        push_owned_arg(&mut command.args, message);
        if let Some(verified) = review.verified {
            push_arg(&mut command.args, "--label");
            let mut label = "Verified=".to_owned();
            label.append(label_str(verified));
            push_owned_arg(&mut command.args, label);
        }
        let mut target = decimal_string(change.number);
        target.append(",");
        target.append(decimal_string(patchset.number).as_str());
        push_owned_arg(&mut command.args, target);
        proof {
            assert(command@.args =~= base + review_args(change.number, patchset.number, review@));
        }
        command
    }
}

} // verus!
