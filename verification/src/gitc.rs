//! The command lines that carry out version-control operations.

use vstd::prelude::*;

verus! {

/// A program and the arguments to start it with.
pub struct CommandLine {
    pub program: String,
    pub args: Vec<String>,
}

/// A command line as text.
pub struct CommandLineView {
    pub program: Seq<char>,
    pub args: Seq<Seq<char>>,
}

impl View for CommandLine {
    type V = CommandLineView;

    open spec fn view(&self) -> CommandLineView {
        CommandLineView { program: self.program@, args: self.args.deep_view() }
    }
}

/// `git` started with `args`.
pub open spec fn git(args: Seq<Seq<char>>) -> CommandLineView {
    CommandLineView { program: "git"@, args }
}

/// Appends a copy of `arg` to `args`.
pub(crate) fn push_arg(args: &mut Vec<String>, arg: &str)
    ensures
        final(args).deep_view() == old(args).deep_view().push(arg@),
{
    args.push(arg.to_owned());
}

/// The command line that starts `program` with `args`.
pub(crate) fn command(program: &str, args: Vec<String>) -> (cmd: CommandLine)
    ensures
        cmd@ == (CommandLineView { program: program@, args: args.deep_view() }),
{
    CommandLine { program: program.to_owned(), args }
}

/// `git worktree remove <worktree_name>`
pub fn remove_worktree(worktree_name: &str) -> (cmd: CommandLine)
    ensures
        cmd@ == git(seq!["worktree"@, "remove"@, worktree_name@]),
{
    let mut args: Vec<String> = Vec::new();
    push_arg(&mut args, "worktree");
    push_arg(&mut args, "remove");
    push_arg(&mut args, worktree_name);
    assert(args.deep_view() =~= seq!["worktree"@, "remove"@, worktree_name@]);
    command("git", args)
}

/// `git branch --delete <branch_name> -f`: deletes the branch whether it is
/// merged or not.
pub fn remove_branch(branch_name: &str) -> (cmd: CommandLine)
    ensures
        cmd@ == git(seq!["branch"@, "--delete"@, branch_name@, "-f"@]),
{
    let mut args: Vec<String> = Vec::new();
    push_arg(&mut args, "branch");
    push_arg(&mut args, "--delete");
    push_arg(&mut args, branch_name);
    push_arg(&mut args, "-f");
    assert(args.deep_view() =~= seq!["branch"@, "--delete"@, branch_name@, "-f"@]);
    command("git", args)
}

/// `git fetch <remote> --prune`: refreshes the remote-tracking branches and
/// drops those whose branch is gone from the remote.
pub fn prune_remote(remote: &str) -> (cmd: CommandLine)
    ensures
        cmd@ == git(seq!["fetch"@, remote@, "--prune"@]),
{
    let mut args: Vec<String> = Vec::new();
    push_arg(&mut args, "fetch");
    push_arg(&mut args, remote);
    push_arg(&mut args, "--prune");
    assert(args.deep_view() =~= seq!["fetch"@, remote@, "--prune"@]);
    command("git", args)
}

/// What `git cherry-pick` is told to copy: the range `from..to`, or the one
/// commit `from` where there is no `to`.
pub open spec fn commits(from_hash: Seq<char>, to_hash: Option<Seq<char>>) -> Seq<char> {
    match to_hash {
        Some(to) => from_hash + ".."@ + to,
        None => from_hash,
    }
}

/// `git cherry-pick <from_hash>..<to_hash>`, or `git cherry-pick <from_hash>`
/// where there is no `to_hash`.
pub fn cherrypick(from_hash: &str, to_hash: Option<String>) -> (cmd: CommandLine)
    ensures
        cmd@ == git(seq!["cherry-pick"@, commits(from_hash@, to_hash.deep_view())]),
{
    let mut what = from_hash.to_owned();
    match to_hash {
        Some(hash) => {
            what.append("..");
            what.append(hash.as_str());
        },
        None => {},
    }
    let mut args: Vec<String> = Vec::new();
    push_arg(&mut args, "cherry-pick");
    push_arg(&mut args, what.as_str());
    assert(args.deep_view() =~= seq!["cherry-pick"@, commits(from_hash@, to_hash.deep_view())]);
    command("git", args)
}

/// `git checkout <branch_name>`
pub fn checkout(branch_name: &str) -> (cmd: CommandLine)
    ensures
        cmd@ == git(seq!["checkout"@, branch_name@]),
{
    let mut args: Vec<String> = Vec::new();
    push_arg(&mut args, "checkout");
    push_arg(&mut args, branch_name);
    assert(args.deep_view() =~= seq!["checkout"@, branch_name@]);
    command("git", args)
}

/// `git branch <branch_name>`: a new local branch at the current `HEAD`.
pub fn create_local(branch_name: &str) -> (cmd: CommandLine)
    ensures
        cmd@ == git(seq!["branch"@, branch_name@]),
{
    let mut args: Vec<String> = Vec::new();
    push_arg(&mut args, "branch");
    push_arg(&mut args, branch_name);
    assert(args.deep_view() =~= seq!["branch"@, branch_name@]);
    command("git", args)
}

/// `git branch <branch_name> <commit>`: a new local branch at that commit.
pub fn create_local_at(branch_name: &str, commit: &str) -> (cmd: CommandLine)
    ensures
        cmd@ == git(seq!["branch"@, branch_name@, commit@]),
{
    let mut args: Vec<String> = Vec::new();
    push_arg(&mut args, "branch");
    push_arg(&mut args, branch_name);
    push_arg(&mut args, commit);
    assert(args.deep_view() =~= seq!["branch"@, branch_name@, commit@]);
    command("git", args)
}

/// `git worktree add <path> <branch_name>`
pub fn create_worktree(branch_name: &str, path: &str) -> (cmd: CommandLine)
    ensures
        cmd@ == git(seq!["worktree"@, "add"@, path@, branch_name@]),
{
    let mut args: Vec<String> = Vec::new();
    push_arg(&mut args, "worktree");
    push_arg(&mut args, "add");
    push_arg(&mut args, path);
    push_arg(&mut args, branch_name);
    assert(args.deep_view() =~= seq!["worktree"@, "add"@, path@, branch_name@]);
    command("git", args)
}

/// `git fetch origin <name>:<name>`: brings the branch of `origin` into the
/// local branch of the same name, which it creates or moves.
pub fn fetch_branch(local_branch_name: &str) -> (cmd: CommandLine)
    ensures
        cmd@ == git(
            seq!["fetch"@, "origin"@, local_branch_name@ + ":"@ + local_branch_name@],
        ),
{
    let mut refspec = local_branch_name.to_owned();
    refspec.append(":");
    refspec.append(local_branch_name);
    let mut args: Vec<String> = Vec::new();
    push_arg(&mut args, "fetch");
    push_arg(&mut args, "origin");
    push_arg(&mut args, refspec.as_str());
    assert(args.deep_view() =~= seq![
        "fetch"@,
        "origin"@,
        local_branch_name@ + ":"@ + local_branch_name@,
    ]);
    command("git", args)
}

/// `git branch -u <remote_branch_name> <local_branch_name>`
pub fn set_tracking_branch(local_branch_name: &str, remote_branch_name: &str) -> (cmd:
    CommandLine)
    ensures
        cmd@ == git(seq!["branch"@, "-u"@, remote_branch_name@, local_branch_name@]),
{
    let mut args: Vec<String> = Vec::new();
    push_arg(&mut args, "branch");
    push_arg(&mut args, "-u");
    push_arg(&mut args, remote_branch_name);
    push_arg(&mut args, local_branch_name);
    assert(args.deep_view() =~= seq!["branch"@, "-u"@, remote_branch_name@, local_branch_name@]);
    command("git", args)
}

/// `git stash`
pub fn stash() -> (cmd: CommandLine)
    ensures
        cmd@ == git(seq!["stash"@]),
{
    let mut args: Vec<String> = Vec::new();
    push_arg(&mut args, "stash");
    assert(args.deep_view() =~= seq!["stash"@]);
    command("git", args)
}

} // verus!
