//! The engine as mathematics: what it asks next, given what it was told.

use vstd::prelude::*;
use crate::action::ActionView;
use crate::backport::{described_by, planned, BackportSpecView};
use crate::fuzzy::{offered, SelectionView};
use crate::names::{local_name, normalized, worktree_name};
use crate::requests::{FailureView, ReplyView, RequestView, Scope};

verus! {

/// What a worktree is picked for.
#[derive(Debug, Clone, Copy, PartialEq, Eq)]
pub enum Purpose {
    Switch,
    Remove,
}

/// Where the resolution of a branch stands: which answer it waits for.
#[derive(Debug, Clone, Copy, PartialEq, Eq)]
pub enum ResolveStep {
    /// Whether the local branch exists.
    Local,
    /// The refresh of the remote-tracking branches.
    Prune,
    /// Whether the branch exists on the remote.
    Remote,
    /// The fetch into the local branch.
    Fetch,
    /// The local branch being made to track the remote one.
    Upstream,
    /// Uncommitted changes being put aside.
    Stash,
    /// The commit that `HEAD` points at.
    Head,
    /// The creation of the new branch.
    Branch,
}

/// What it means when the pending request fails.
#[derive(Debug, Clone, Copy, PartialEq, Eq)]
pub enum Blame {
    Branch,
    Worktree,
    Command,
}

/// What the engine remembers while a request is pending.
pub enum StateView {
    /// Create: the remote branches were asked for, to pick among.
    RemoteBranches { stash: bool, root: Option<Seq<char>> },
    /// Create: the user is picking a remote branch.
    BranchChoice { stash: bool, root: Option<Seq<char>> },
    /// Create: the branch `token` is being resolved.
    Resolving { step: ResolveStep, token: Seq<char>, stash: bool, root: Option<Seq<char>> },
    /// Create: the worktree of the resolved branch is being looked up.
    Worktree { branch: Seq<char>, root: Option<Seq<char>> },
    /// Create: the worktree is being created.
    WorktreeAdded { label: Seq<char>, directory: Seq<char> },
    /// The windows were asked for, to see whether `label` is among them.
    Windows { label: Seq<char>, directory: Seq<char> },
    /// Switch and remove: the worktrees were asked for.
    Worktrees { purpose: Purpose },
    /// Switch and remove: the user is picking a worktree.
    WorktreeChoice { purpose: Purpose },
    /// Switch and remove: the picked worktree is being looked up.
    ChosenWorktree { name: Seq<char>, purpose: Purpose },
    /// Remove: the local branches were asked for, to find the worktree's.
    LocalBranches { worktree: Seq<char> },
    /// Backport: the remote branches were asked for.
    ReleaseBranches { spec: BackportSpecView },
    /// Backport: the user is picking release branches.
    ReleaseChoice { spec: BackportSpecView },
    /// The last steps, whose answers decide nothing but whether to go on:
    /// `rest` is still to be asked, one after the other.
    Running { blame: Blame, rest: Seq<RequestView> },
}

/// Where an action stands: a request is pending, or the action is over.
pub enum ProgressView {
    Ask { request: RequestView, state: StateView },
    Finished,
    Failed(FailureView),
}

/// The remote whose branches are fetched and tracked.
pub open spec fn origin() -> Seq<char> {
    "origin"@
}

/// The remote-tracking branch that mirrors the remote's branch `token`.
pub open spec fn on_origin(token: Seq<char>) -> Seq<char> {
    "origin/"@ + token
}

/// What the release branches have in common in their names.
pub open spec fn release_filter() -> Seq<char> {
    "origin/release"@
}

/// What a failed request amounts to.
pub open spec fn blame_of(request: RequestView) -> Blame {
    match request {
        RequestView::CreateBranch { .. } => Blame::Branch,
        RequestView::CreateWorktree { .. } => Blame::Worktree,
        _ => Blame::Command,
    }
}

/// The failure to report when a collaborator fails with `message`.
pub open spec fn failure(blame: Blame, message: Seq<char>) -> FailureView {
    match blame {
        Blame::Branch => FailureView::BranchCreateFailed(message),
        Blame::Worktree => FailureView::WorktreeCreateFailed(message),
        Blame::Command => FailureView::ExternalCommandFailed(message),
    }
}

/// Whose failure the pending request's would be.
pub open spec fn blamed(state: StateView) -> Blame {
    match state {
        StateView::Resolving { step: ResolveStep::Branch, .. } => Blame::Branch,
        StateView::WorktreeAdded { .. } => Blame::Worktree,
        StateView::Running { blame, .. } => blame,
        _ => Blame::Command,
    }
}

/// Asks the requests of `plan` one after the other, and finishes after the
/// last.
pub open spec fn run(plan: Seq<RequestView>) -> ProgressView {
    if plan.len() == 0 {
        ProgressView::Finished
    } else {
        ProgressView::Ask {
            request: plan[0],
            state: StateView::Running { blame: blame_of(plan[0]), rest: plan.skip(1) },
        }
    }
}

/// Begins to resolve `token`, the branch that was named or the local name of
/// the remote branch that was picked: is there a local branch of that name?
pub open spec fn resolve(token: Seq<char>, stash: bool, root: Option<Seq<char>>) -> ProgressView {
    ProgressView::Ask {
        request: RequestView::FindBranch { name: token, scope: Scope::Local },
        state: StateView::Resolving { step: ResolveStep::Local, token, stash, root },
    }
}

/// Goes to the worktree of a resolved branch, which is created where it is
/// missing: is there a worktree for the branch?
pub open spec fn create_or_focus(branch: Seq<char>, root: Option<Seq<char>>) -> ProgressView {
    ProgressView::Ask {
        request: RequestView::FindWorktree { name: worktree_name(branch) },
        state: StateView::Worktree { branch, root },
    }
}

/// Goes to the window `label`: which windows are there?
pub open spec fn show(label: Seq<char>, directory: Seq<char>) -> ProgressView {
    ProgressView::Ask {
        request: RequestView::ListWindows,
        state: StateView::Windows { label, directory },
    }
}

/// Lets the user pick a worktree, to go to it or to remove it: which
/// worktrees are there?
pub open spec fn pick_worktree(purpose: Purpose) -> ProgressView {
    ProgressView::Ask {
        request: RequestView::ListWorktrees,
        state: StateView::Worktrees { purpose },
    }
}

/// Goes to the window of a worktree that the user picks.
pub open spec fn switch_to() -> ProgressView {
    pick_worktree(Purpose::Switch)
}

/// Removes the worktree `worktree` with its branch and its window: which
/// local branches are there?
pub open spec fn remove(worktree: Seq<char>) -> ProgressView {
    ProgressView::Ask {
        request: RequestView::ListBranches { scope: Scope::Local },
        state: StateView::LocalBranches { worktree },
    }
}

/// The first of `branches` whose key is that of `worktree`.
pub open spec fn matching_branch(branches: Seq<Seq<char>>, worktree: Seq<char>) -> Option<
    Seq<char>,
>
    decreases branches.len(),
{
    if branches.len() == 0 {
        None
    } else if normalized(branches[0]) == normalized(worktree) {
        Some(branches[0])
    } else {
        matching_branch(branches.skip(1), worktree)
    }
}

/// Teardown, in its fixed order: the worktree, then its branch, then its
/// window.
pub open spec fn teardown(worktree: Seq<char>, branch: Seq<char>) -> Seq<RequestView> {
    seq![
        RequestView::RemoveWorktree { name: worktree },
        RequestView::DeleteBranch { name: branch },
        RequestView::DestroyWindow { label: worktree },
    ]
}

/// How an action begins, in the repository whose root directory is `root`,
/// if it has one. The root is needed only where a worktree is created.
pub open spec fn begin(action: ActionView, root: Option<Seq<char>>) -> ProgressView {
    match action {
        ActionView::Create(command) => match command.branch_to_create {
            Some(token) => resolve(token, command.stash, root),
            None => ProgressView::Ask {
                request: RequestView::ListBranches { scope: Scope::Remote },
                state: StateView::RemoteBranches { stash: command.stash, root },
            },
        },
        ActionView::Switch => switch_to(),
        ActionView::Remove => pick_worktree(Purpose::Remove),
        ActionView::Backport(command) => match described_by(command) {
            Some(spec) => ProgressView::Ask {
                request: RequestView::ListBranches { scope: Scope::Remote },
                state: StateView::ReleaseBranches { spec },
            },
            None => ProgressView::Failed(
                FailureView::MalformedBranchName(command.branch_to_create),
            ),
        },
    }
}

/// How an action goes on when the pending request is answered.
///
/// A collaborator's failure ends the action, whatever was pending. So does a
/// reply that does not answer the pending request. Nothing is undone.
pub open spec fn advance(state: StateView, reply: ReplyView) -> ProgressView {
    let unexpected = ProgressView::Failed(FailureView::UnexpectedReply);
    let aborted = ProgressView::Failed(FailureView::SelectionAborted);
    match (state, reply) {
        (_, ReplyView::Failed(message)) => ProgressView::Failed(failure(blamed(state), message)),
        (StateView::RemoteBranches { stash, root }, ReplyView::Names(names)) => ProgressView::Ask {
            request: RequestView::Choose(SelectionView { candidates: names, multi: true }),
            state: StateView::BranchChoice { stash, root },
        },
        (StateView::BranchChoice { stash, root }, ReplyView::Picked(picked)) => {
            if picked.len() == 0 {
                aborted
            } else {
                resolve(local_name(picked[0]), stash, root)
            }
        },
        (StateView::BranchChoice { .. }, ReplyView::Aborted) => aborted,
        (StateView::Resolving { step, token, stash, root }, _) => {
            let then = |step: ResolveStep, request: RequestView|
                ProgressView::Ask {
                    request,
                    state: StateView::Resolving { step, token, stash, root },
                };
            match (step, reply) {
                (ResolveStep::Local, ReplyView::Found(true)) => create_or_focus(token, root),
                (ResolveStep::Local, ReplyView::Found(false)) => then(
                    ResolveStep::Prune,
                    RequestView::PruneRemote { remote: origin() },
                ),
                (ResolveStep::Prune, ReplyView::Done) => then(
                    ResolveStep::Remote,
                    RequestView::FindBranch { name: on_origin(token), scope: Scope::Remote },
                ),
                (ResolveStep::Remote, ReplyView::Found(true)) => then(
                    ResolveStep::Fetch,
                    RequestView::FetchBranch { name: token },
                ),
                (ResolveStep::Remote, ReplyView::Found(false)) => if stash {
                    then(ResolveStep::Stash, RequestView::Stash)
                } else {
                    then(ResolveStep::Head, RequestView::CurrentHead)
                },
                (ResolveStep::Fetch, ReplyView::Done) => then(
                    ResolveStep::Upstream,
                    RequestView::SetUpstream { local: token, remote: on_origin(token) },
                ),
                (ResolveStep::Upstream, ReplyView::Done) => create_or_focus(token, root),
                (ResolveStep::Stash, ReplyView::Done) => then(
                    ResolveStep::Head,
                    RequestView::CurrentHead,
                ),
                (ResolveStep::Head, ReplyView::Commit(head)) => then(
                    ResolveStep::Branch,
                    RequestView::CreateBranch { name: token, at: Some(head) },
                ),
                (ResolveStep::Branch, ReplyView::Done) => create_or_focus(token, root),
                _ => unexpected,
            }
        },
        (StateView::Worktree { branch, root }, ReplyView::Worktree(found)) => {
            let label = worktree_name(branch);
            match (found, root) {
                (Some(directory), _) => show(label, directory),
                (None, Some(root)) => ProgressView::Ask {
                    request: RequestView::CreateWorktree { path: root + label, branch },
                    state: StateView::WorktreeAdded { label, directory: root + label },
                },
                (None, None) => ProgressView::Failed(FailureView::NoRepositoryRoot),
            }
        },
        (StateView::WorktreeAdded { label, directory }, ReplyView::Done) => show(label, directory),
        (StateView::Windows { label, directory }, ReplyView::Names(labels)) => {
            if labels.contains(label) {
                run(seq![RequestView::FocusWindow { label }])
            } else {
                run(seq![RequestView::CreateWindow { label, directory }])
            }
        },
        (StateView::Worktrees { purpose }, ReplyView::Names(names)) => {
            if names.len() == 0 {
                ProgressView::Failed(FailureView::NoSuchWorktree)
            } else {
                ProgressView::Ask {
                    request: RequestView::Choose(
                        SelectionView { candidates: names, multi: false },
                    ),
                    state: StateView::WorktreeChoice { purpose },
                }
            }
        },
        (StateView::WorktreeChoice { purpose }, ReplyView::Picked(picked)) => {
            if picked.len() == 0 {
                aborted
            } else {
                ProgressView::Ask {
                    request: RequestView::FindWorktree { name: picked[0] },
                    state: StateView::ChosenWorktree { name: picked[0], purpose },
                }
            }
        },
        (StateView::WorktreeChoice { .. }, ReplyView::Aborted) => aborted,
        (StateView::ChosenWorktree { name, purpose }, ReplyView::Worktree(found)) => {
            match (found, purpose) {
                (None, _) => ProgressView::Failed(FailureView::NoSuchWorktree),
                (Some(directory), Purpose::Switch) => show(name, directory),
                (Some(_), Purpose::Remove) => remove(name),
            }
        },
        (StateView::LocalBranches { worktree }, ReplyView::Names(branches)) => {
            match matching_branch(branches, worktree) {
                Some(branch) => run(teardown(worktree, branch)),
                None => ProgressView::Failed(FailureView::NoMatchingBranch),
            }
        },
        (StateView::ReleaseBranches { spec }, ReplyView::Names(names)) => ProgressView::Ask {
            request: RequestView::Choose(
                SelectionView { candidates: offered(names, Some(release_filter())), multi: true },
            ),
            state: StateView::ReleaseChoice { spec },
        },
        (StateView::ReleaseChoice { spec }, ReplyView::Picked(picked)) => {
            if picked.len() == 0 {
                aborted
            } else {
                match planned(spec, picked) {
                    Ok(plan) => run(plan),
                    Err(failure) => ProgressView::Failed(failure),
                }
            }
        },
        (StateView::ReleaseChoice { .. }, ReplyView::Aborted) => aborted,
        (StateView::Running { rest, .. }, ReplyView::Done) => run(rest),
        _ => unexpected,
    }
}

/// The exit status of the process: 0 where the action finished, 1 where it
/// failed, none while a request is pending.
pub open spec fn exit_status(progress: ProgressView) -> Option<int> {
    match progress {
        ProgressView::Ask { .. } => None,
        ProgressView::Finished => Some(0),
        ProgressView::Failed(_) => Some(1),
    }
}

} // verus!
