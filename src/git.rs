//! The `git` invocations that the triggering actions make, and how their
//! answers are read.

use vstd::prelude::*;
use crate::text::{append_texts, trim_of, trimmed};

verus! {

/// The arguments of `git` for a command with the arguments `args`: `args`,
/// then `-q` when the commands run quietly.
pub open spec fn git_args(quiet: bool, args: Seq<Seq<char>>) -> Seq<Seq<char>> {
    if quiet {
        args.push("-q"@)
    } else {
        args
    }
}

/// The runner of `git` commands.
#[derive(Debug)]
pub struct Git {
    /// whether commands run with `-q`
    quiet: bool,
}

impl View for Git {
    type V = bool;

    /// Whether commands run quietly.
    closed spec fn view(&self) -> bool {
        self.quiet
    }
}

impl Git {
    /// A runner whose commands run with `-q` when `quiet` holds.
    pub fn new(quiet: bool) -> (g: Git)
        ensures
            g@ == quiet,
    {
        Git { quiet }
    }

    /// The arguments of `git` for a command with the arguments `args`.
    pub fn construct_command(&self, args: &Vec<String>) -> (r: Vec<String>)
        ensures
            r.deep_view() == git_args(self@, args.deep_view()),
    {
        let mut cmd: Vec<String> = Vec::new();
        append_texts(&mut cmd, args);
        assert(cmd.deep_view() =~= args.deep_view());
        if self.quiet {
            let ghost before = cmd.deep_view();
            cmd.push(String::from_str("-q"));
            assert(cmd.deep_view() =~= before.push("-q"@));
        }
        cmd
    }

    /// The arguments of `git` for a push, forced or not.
    pub fn push_args(&self, force: bool) -> (r: Vec<String>)
        ensures
            r.deep_view() == git_args(
                self@,
                if force {
                    seq!["push"@, "--force"@]
                } else {
                    seq!["push"@]
                },
            ),
    {
        let args = if force {
            vec![String::from_str("push"), String::from_str("--force")]
        } else {
            vec![String::from_str("push")]
        };
        assert(args.deep_view() =~= if force {
            seq!["push"@, "--force"@]
        } else {
            seq!["push"@]
        });
        self.construct_command(&args)
    }

    /// The arguments of `git` that list the staged files.
    pub fn staged_files_args(&self) -> (r: Vec<String>)
        ensures
            r.deep_view() == git_args(self@, seq!["diff"@, "--staged"@, "--name-only"@]),
    {
        let args = vec![
            String::from_str("diff"),
            String::from_str("--staged"),
            String::from_str("--name-only"),
        ];
        assert(args.deep_view() =~= seq!["diff"@, "--staged"@, "--name-only"@]);
        self.construct_command(&args)
    }

    /// The arguments of `git` that amend the last commit, keeping its message.
    pub fn commit_amend_no_edit_args(&self) -> (r: Vec<String>)
        ensures
            r.deep_view() == git_args(self@, seq!["commit"@, "--amend"@, "--no-edit"@]),
    {
        let args = vec![
            String::from_str("commit"),
            String::from_str("--amend"),
            String::from_str("--no-edit"),
        ];
        assert(args.deep_view() =~= seq!["commit"@, "--amend"@, "--no-edit"@]);
        self.construct_command(&args)
    }

    /// The arguments of `git` that print the name of the current branch.
    pub fn current_branch_args(&self) -> (r: Vec<String>)
        ensures
            r.deep_view() == git_args(self@, seq!["branch"@, "--show-current"@]),
    {
        let args = vec![String::from_str("branch"), String::from_str("--show-current")];
        assert(args.deep_view() =~= seq!["branch"@, "--show-current"@]);
        self.construct_command(&args)
    }

    /// The branch name in the output of the current-branch query: the output
    /// without its surrounding whitespace.
    pub fn branch_name(output: &String) -> (r: String)
        ensures
            r@ == trim_of(output@),
    {
        trimmed(output.as_str())
    }

    /// Whether the output of the staged-files listing names any file: it does
    /// exactly when it is not empty.
    pub fn check_staged_files(listing: &String) -> (r: bool)
        ensures
            r == (listing@.len() > 0),
    {
        !listing.as_str().is_empty()
    }
}

} // verus!
