//! What the engine asks of its collaborators, and what they answer.

use vstd::prelude::*;
use crate::fuzzy::{Selection, SelectionView};
use crate::gitc::{
    checkout, cherrypick, commits, create_local, create_local_at, create_worktree, fetch_branch,
    git, prune_remote, remove_branch, remove_worktree, set_tracking_branch, stash, CommandLine,
    CommandLineView,
};
use crate::names::{local_branch_name, local_name};
use crate::tmux::{
    labels, list_windows, new_window, remove_window, select_window, tmux, window_labels,
};

verus! {

/// Whether a branch belongs to this repository or mirrors one of a remote.
#[derive(Debug, Clone, Copy, PartialEq, Eq)]
pub enum Scope {
    Local,
    Remote,
}

/// One call on a collaborator: version control, the window manager, or the
/// interactive picker.
#[derive(Debug, Clone, PartialEq, Eq)]
pub enum Request {
    /// The names of all branches of one scope.
    ListBranches { scope: Scope },
    /// Whether a branch of that name and scope exists.
    FindBranch { name: String, scope: Scope },
    /// The commit that `HEAD` points at.
    CurrentHead,
    /// A new local branch at the commit `at`; at the current `HEAD` where
    /// none is given.
    CreateBranch { name: String, at: Option<String> },
    /// Delete a local branch, merged or not.
    DeleteBranch { name: String },
    /// Refresh the remote-tracking branches of a remote and drop the stale ones.
    PruneRemote { remote: String },
    /// Fetch a branch of `origin` into the local branch of the same name.
    FetchBranch { name: String },
    /// Make a local branch track a remote-tracking one.
    SetUpstream { local: String, remote: String },
    /// The names of all worktrees.
    ListWorktrees,
    /// The path of the worktree of that name, if there is one.
    FindWorktree { name: String },
    /// Check a branch out into a new worktree at `path`.
    CreateWorktree { path: String, branch: String },
    /// Remove a worktree.
    RemoveWorktree { name: String },
    /// Copy the commit `from_hash`, or the range `from_hash..to_hash`, onto
    /// the branch that is checked out.
    Replay { from_hash: String, to_hash: Option<String> },
    /// Check a branch out in the current working directory.
    Checkout { branch: String },
    /// Put uncommitted changes aside.
    Stash,
    /// The labels of all windows.
    ListWindows,
    /// Bring the window with that label to the front.
    FocusWindow { label: String },
    /// Open a window with that label in `directory`.
    CreateWindow { label: String, directory: String },
    /// Close the window with that label.
    DestroyWindow { label: String },
    /// Let the user pick among candidates.
    Choose(Selection),
}

/// A request as text.
pub enum RequestView {
    ListBranches { scope: Scope },
    FindBranch { name: Seq<char>, scope: Scope },
    CurrentHead,
    CreateBranch { name: Seq<char>, at: Option<Seq<char>> },
    DeleteBranch { name: Seq<char> },
    PruneRemote { remote: Seq<char> },
    FetchBranch { name: Seq<char> },
    SetUpstream { local: Seq<char>, remote: Seq<char> },
    ListWorktrees,
    FindWorktree { name: Seq<char> },
    CreateWorktree { path: Seq<char>, branch: Seq<char> },
    RemoveWorktree { name: Seq<char> },
    Replay { from_hash: Seq<char>, to_hash: Option<Seq<char>> },
    Checkout { branch: Seq<char> },
    Stash,
    ListWindows,
    FocusWindow { label: Seq<char> },
    CreateWindow { label: Seq<char>, directory: Seq<char> },
    DestroyWindow { label: Seq<char> },
    Choose(SelectionView),
}

impl View for Request {
    type V = RequestView;

    open spec fn view(&self) -> RequestView {
        match self {
            Request::ListBranches { scope } => RequestView::ListBranches { scope: *scope },
            Request::FindBranch { name, scope } => RequestView::FindBranch {
                name: name@,
                scope: *scope,
            },
            Request::CurrentHead => RequestView::CurrentHead,
            Request::CreateBranch { name, at } => RequestView::CreateBranch {
                name: name@,
                at: at.deep_view(),
            },
            Request::DeleteBranch { name } => RequestView::DeleteBranch { name: name@ },
            Request::PruneRemote { remote } => RequestView::PruneRemote { remote: remote@ },
            Request::FetchBranch { name } => RequestView::FetchBranch { name: name@ },
            Request::SetUpstream { local, remote } => RequestView::SetUpstream {
                local: local@,
                remote: remote@,
            },
            Request::ListWorktrees => RequestView::ListWorktrees,
            Request::FindWorktree { name } => RequestView::FindWorktree { name: name@ },
            Request::CreateWorktree { path, branch } => RequestView::CreateWorktree {
                path: path@,
                branch: branch@,
            },
            Request::RemoveWorktree { name } => RequestView::RemoveWorktree { name: name@ },
            Request::Replay { from_hash, to_hash } => RequestView::Replay {
                from_hash: from_hash@,
                to_hash: to_hash.deep_view(),
            },
            Request::Checkout { branch } => RequestView::Checkout { branch: branch@ },
            Request::Stash => RequestView::Stash,
            Request::ListWindows => RequestView::ListWindows,
            Request::FocusWindow { label } => RequestView::FocusWindow { label: label@ },
            Request::CreateWindow { label, directory } => RequestView::CreateWindow {
                label: label@,
                directory: directory@,
            },
            Request::DestroyWindow { label } => RequestView::DestroyWindow { label: label@ },
            Request::Choose(selection) => RequestView::Choose(selection@),
        }
    }
}

/// Whether a request only asks, and leaves repository and windows as they are.
pub open spec fn only_asks(request: RequestView) -> bool {
    match request {
        RequestView::ListBranches { .. } => true,
        RequestView::FindBranch { .. } => true,
        RequestView::CurrentHead => true,
        RequestView::ListWorktrees => true,
        RequestView::FindWorktree { .. } => true,
        RequestView::ListWindows => true,
        RequestView::Choose(_) => true,
        _ => false,
    }
}

/// The command line that carries a request out, for the requests that a
/// command line can carry out. Listing and finding branches and worktrees
/// and reading `HEAD` is asked of the repository itself, and choosing of the
/// picker.
pub open spec fn rendered(request: RequestView) -> Option<CommandLineView> {
    match request {
        RequestView::ListBranches { .. } => None,
        RequestView::FindBranch { .. } => None,
        RequestView::CurrentHead => None,
        RequestView::CreateBranch { name, at } => Some(
            match at {
                Some(commit) => git(seq!["branch"@, name, commit]),
                None => git(seq!["branch"@, name]),
            },
        ),
        RequestView::DeleteBranch { name } => Some(git(seq!["branch"@, "--delete"@, name, "-f"@])),
        RequestView::PruneRemote { remote } => Some(git(seq!["fetch"@, remote, "--prune"@])),
        RequestView::FetchBranch { name } => Some(
            git(seq!["fetch"@, "origin"@, name + ":"@ + name]),
        ),
        RequestView::SetUpstream { local, remote } => Some(
            git(seq!["branch"@, "-u"@, remote, local]),
        ),
        RequestView::ListWorktrees => None,
        RequestView::FindWorktree { .. } => None,
        RequestView::CreateWorktree { path, branch } => Some(
            git(seq!["worktree"@, "add"@, path, branch]),
        ),
        RequestView::RemoveWorktree { name } => Some(git(seq!["worktree"@, "remove"@, name])),
        RequestView::Replay { from_hash, to_hash } => Some(
            git(seq!["cherry-pick"@, commits(from_hash, to_hash)]),
        ),
        RequestView::Checkout { branch } => Some(git(seq!["checkout"@, branch])),
        RequestView::Stash => Some(git(seq!["stash"@])),
        RequestView::ListWindows => Some(tmux(seq!["list-windows"@, "-F"@, "#{window_name}"@])),
        RequestView::FocusWindow { label } => Some(tmux(seq!["select-window"@, "-t"@, label])),
        RequestView::CreateWindow { label, directory } => Some(
            tmux(seq!["neww"@, "-n"@, label, "-c"@, directory]),
        ),
        RequestView::DestroyWindow { label } => Some(tmux(seq!["kill-window"@, "-t"@, label])),
        RequestView::Choose(_) => None,
    }
}

/// The command line to run for `request`, if it is one that a command line
/// carries out.
pub fn command_for(request: &Request) -> (cmd: Option<CommandLine>)
    ensures
        cmd.is_some() == rendered(request@).is_some(),
        cmd matches Some(c) ==> Some(c@) == rendered(request@),
{
    match request {
        Request::ListBranches { .. } => None,
        Request::FindBranch { .. } => None,
        Request::CurrentHead => None,
        Request::CreateBranch { name, at } => Some(
            match at {
                Some(commit) => create_local_at(name.as_str(), commit.as_str()),
                None => create_local(name.as_str()),
            },
        ),
        Request::DeleteBranch { name } => Some(remove_branch(name.as_str())),
        Request::PruneRemote { remote } => Some(prune_remote(remote.as_str())),
        Request::FetchBranch { name } => Some(fetch_branch(name.as_str())),
        Request::SetUpstream { local, remote } => Some(
            set_tracking_branch(local.as_str(), remote.as_str()),
        ),
        Request::ListWorktrees => None,
        Request::FindWorktree { .. } => None,
        Request::CreateWorktree { path, branch } => Some(
            create_worktree(branch.as_str(), path.as_str()),
        ),
        Request::RemoveWorktree { name } => Some(remove_worktree(name.as_str())),
        Request::Replay { from_hash, to_hash } => Some(
            cherrypick(from_hash.as_str(), to_hash.clone()),
        ),
        Request::Checkout { branch } => Some(checkout(branch.as_str())),
        Request::Stash => Some(stash()),
        Request::ListWindows => Some(list_windows()),
        Request::FocusWindow { label } => Some(select_window(label.as_str())),
        Request::CreateWindow { label, directory } => Some(
            new_window(label.as_str(), directory.as_str()),
        ),
        Request::DestroyWindow { label } => Some(remove_window(label.as_str())),
        Request::Choose(_) => None,
    }
}

/// How a remote-tracking branch becomes a local one: the local branch's name
/// and the two requests, to make in this order, that bring the branch in and
/// bind it to the remote one.
#[derive(Debug, PartialEq, Eq)]
pub struct LocalFromRemote {
    pub local_branch_name: String,
    pub fetch: Request,
    pub track: Request,
}

/// The local branch for `remote_branch_name`, with the fetch that creates it
/// or moves it to where the remote branch is, and the request that makes it
/// track the remote branch.
pub fn create_local_from_remote(remote_branch_name: &str) -> (plan: LocalFromRemote)
    ensures
        plan.local_branch_name@ == local_name(remote_branch_name@),
        plan.fetch@ == (RequestView::FetchBranch { name: local_name(remote_branch_name@) }),
        plan.track@ == (RequestView::SetUpstream {
            local: local_name(remote_branch_name@),
            remote: remote_branch_name@,
        }),
{
    let local_branch_name = local_branch_name(remote_branch_name);
    let fetch = Request::FetchBranch { name: local_branch_name.clone() };
    let track = Request::SetUpstream {
        local: local_branch_name.clone(),
        remote: remote_branch_name.to_owned(),
    };
    LocalFromRemote { local_branch_name, fetch, track }
}

/// What a collaborator answered.
#[derive(Debug, Clone, PartialEq, Eq)]
pub enum Reply {
    /// The operation was carried out.
    Done,
    /// The collaborator refused or failed, with what it said.
    Failed(String),
    /// The names that were asked for.
    Names(Vec<String>),
    /// Whether the branch exists.
    Found(bool),
    /// The commit that was asked for, by its hash.
    Commit(String),
    /// The path of the worktree, if it exists.
    Worktree(Option<String>),
    /// What the user picked.
    Picked(Vec<String>),
    /// The user left the picker without picking.
    Aborted,
}

/// A reply as text.
pub enum ReplyView {
    Done,
    Failed(Seq<char>),
    Names(Seq<Seq<char>>),
    Found(bool),
    Commit(Seq<char>),
    Worktree(Option<Seq<char>>),
    Picked(Seq<Seq<char>>),
    Aborted,
}

impl View for Reply {
    type V = ReplyView;

    open spec fn view(&self) -> ReplyView {
        match self {
            Reply::Done => ReplyView::Done,
            Reply::Failed(message) => ReplyView::Failed(message@),
            Reply::Names(names) => ReplyView::Names(names.deep_view()),
            Reply::Found(found) => ReplyView::Found(*found),
            Reply::Commit(hash) => ReplyView::Commit(hash@),
            Reply::Worktree(path) => ReplyView::Worktree(path.deep_view()),
            Reply::Picked(names) => ReplyView::Picked(names.deep_view()),
            Reply::Aborted => ReplyView::Aborted,
        }
    }
}

/// The reply that a run of the command for `request` amounts to.
///
/// A command that exited with a status other than 0, or that could not be
/// run at all (no status), has failed, with what it wrote to its error
/// stream. A list of windows that succeeded answers with the labels it
/// printed; any other command that succeeded is done.
pub open spec fn answered(
    request: RequestView,
    status: Option<i32>,
    output: Seq<char>,
    errors: Seq<char>,
) -> ReplyView {
    if status != Some(0i32) {
        ReplyView::Failed(errors)
    } else if request is ListWindows {
        ReplyView::Names(labels(output))
    } else {
        ReplyView::Done
    }
}

/// Reads the reply off a run of the command for `request`: its exit status,
/// if it ran, and what it wrote to its output and error streams.
pub fn reply_of_run(request: &Request, status: Option<i32>, output: String, errors: String) -> (reply:
    Reply)
    ensures
        reply@ == answered(request@, status, output@, errors@),
{
    let succeeded = match status {
        Some(code) => code == 0,
        None => false,
    };
    if !succeeded {
        Reply::Failed(errors)
    } else {
        match request {
            Request::ListWindows => Reply::Names(window_labels(output.as_str())),
            _ => Reply::Done,
        }
    }
}

/// The reply that the picker's outcome amounts to: `Aborted` where the user
/// left it, and what was picked where not.
pub fn reply_of_pick(aborted: bool, picked: Vec<String>) -> (reply: Reply)
    ensures
        reply@ == if aborted {
            ReplyView::Aborted
        } else {
            ReplyView::Picked(picked.deep_view())
        },
{
    if aborted {
        Reply::Aborted
    } else {
        Reply::Picked(picked)
    }
}

/// Why an action came to nothing.
#[derive(Debug, Clone, PartialEq, Eq)]
pub enum Failure {
    /// The user left a picker without picking.
    SelectionAborted,
    /// A branch could not be created; with what version control said.
    BranchCreateFailed(String),
    /// A worktree could not be created; with what version control said.
    WorktreeCreateFailed(String),
    /// No local branch has the key of the worktree to remove.
    NoMatchingBranch,
    /// There is no worktree to go to or to remove.
    NoSuchWorktree,
    /// Another call on a collaborator failed; with what it said.
    ExternalCommandFailed(String),
    /// A branch name lacks the segment that a backport takes from it.
    MalformedBranchName(String),
    /// A worktree is to be created, and the repository's metadata directory
    /// names no directory to create it in.
    NoRepositoryRoot,
    /// A reply does not answer the request that was pending.
    UnexpectedReply,
}

/// A failure as text.
pub enum FailureView {
    SelectionAborted,
    BranchCreateFailed(Seq<char>),
    WorktreeCreateFailed(Seq<char>),
    NoMatchingBranch,
    NoSuchWorktree,
    ExternalCommandFailed(Seq<char>),
    MalformedBranchName(Seq<char>),
    NoRepositoryRoot,
    UnexpectedReply,
}

impl View for Failure {
    type V = FailureView;

    open spec fn view(&self) -> FailureView {
        match self {
            Failure::SelectionAborted => FailureView::SelectionAborted,
            Failure::BranchCreateFailed(message) => FailureView::BranchCreateFailed(message@),
            Failure::WorktreeCreateFailed(message) => FailureView::WorktreeCreateFailed(message@),
            Failure::NoMatchingBranch => FailureView::NoMatchingBranch,
            Failure::NoSuchWorktree => FailureView::NoSuchWorktree,
            Failure::ExternalCommandFailed(message) => FailureView::ExternalCommandFailed(
                message@,
            ),
            Failure::MalformedBranchName(name) => FailureView::MalformedBranchName(name@),
            Failure::NoRepositoryRoot => FailureView::NoRepositoryRoot,
            Failure::UnexpectedReply => FailureView::UnexpectedReply,
        }
    }
}

/// What a failure says of itself.
pub open spec fn described(failure: FailureView) -> Seq<char> {
    match failure {
        FailureView::SelectionAborted => "No selection was made"@,
        FailureView::BranchCreateFailed(message) => "Error creating branch: "@ + message,
        FailureView::WorktreeCreateFailed(message) => "Error creating worktree: "@ + message,
        FailureView::NoMatchingBranch => "No branch matches the worktree"@,
        FailureView::NoSuchWorktree => "No such worktree"@,
        FailureView::ExternalCommandFailed(message) => message,
        FailureView::MalformedBranchName(name) => "Branch name has too few segments: "@ + name,
        FailureView::NoRepositoryRoot => "The repository has no root directory"@,
        FailureView::UnexpectedReply => "The reply does not answer the request"@,
    }
}

impl Failure {
    /// Whether the failure is shown to the user. A selection that the user
    /// gave up is no error to report.
    pub fn is_reported(&self) -> (reported: bool)
        ensures
            reported == !(self@ is SelectionAborted),
    {
        match self {
            Failure::SelectionAborted => false,
            _ => true,
        }
    }

    /// The message to show for this failure. What a collaborator said is
    /// passed on as it came.
    pub fn message(&self) -> (text: String)
        ensures
            text@ == described(self@),
    {
        match self {
            Failure::SelectionAborted => "No selection was made".to_owned(),
            Failure::BranchCreateFailed(message) => {
                let mut text = "Error creating branch: ".to_owned();
                text.append(message.as_str());
                text
            },
            Failure::WorktreeCreateFailed(message) => {
                let mut text = "Error creating worktree: ".to_owned();
                text.append(message.as_str());
                text
            },
            Failure::NoMatchingBranch => "No branch matches the worktree".to_owned(),
            Failure::NoSuchWorktree => "No such worktree".to_owned(),
            Failure::ExternalCommandFailed(message) => message.clone(),
            Failure::MalformedBranchName(name) => {
                let mut text = "Branch name has too few segments: ".to_owned();
                text.append(name.as_str());
                text
            },
            Failure::NoRepositoryRoot => "The repository has no root directory".to_owned(),
            Failure::UnexpectedReply => "The reply does not answer the request".to_owned(),
        }
    }
}

} // verus!
