//! The engine: it decides what to ask of the collaborators next, and the
//! caller carries each request out and hands the answer back.

use vstd::prelude::*;
use crate::action::Action;
use crate::backport::{backport_spec, plan, BackportSpec};
use crate::fuzzy::{select_remote_branch, select_worktree};
use crate::model;
use crate::model::{Blame, ProgressView, Purpose, ResolveStep, StateView};
use crate::names::{
    derive_path, derive_worktree_name, local_branch_name, normalize, remote_branch_name,
    repo_root, repository_root,
};
use crate::requests::{Failure, Reply, Request, Scope};
use crate::tmux::is_listed;

verus! {

#[derive(Debug, PartialEq, Eq)]
enum State {
    RemoteBranches { stash: bool, root: Option<String> },
    BranchChoice { stash: bool, root: Option<String> },
    Resolving { step: ResolveStep, token: String, stash: bool, root: Option<String> },
    Worktree { branch: String, root: Option<String> },
    WorktreeAdded { label: String, directory: String },
    Windows { label: String, directory: String },
    Worktrees { purpose: Purpose },
    WorktreeChoice { purpose: Purpose },
    ChosenWorktree { name: String, purpose: Purpose },
    LocalBranches { worktree: String },
    ReleaseBranches { spec: BackportSpec },
    ReleaseChoice { spec: BackportSpec },
    Running { blame: Blame, rest: Vec<Request> },
}

impl View for State {
    type V = StateView;

    closed spec fn view(&self) -> StateView {
        match self {
            State::RemoteBranches { stash, root } => StateView::RemoteBranches {
                stash: *stash,
                root: root.deep_view(),
            },
            State::BranchChoice { stash, root } => StateView::BranchChoice {
                stash: *stash,
                root: root.deep_view(),
            },
            State::Resolving { step, token, stash, root } => StateView::Resolving {
                step: *step,
                token: token@,
                stash: *stash,
                root: root.deep_view(),
            },
            State::Worktree { branch, root } => StateView::Worktree {
                branch: branch@,
                root: root.deep_view(),
            },
            State::WorktreeAdded { label, directory } => StateView::WorktreeAdded {
                label: label@,
                directory: directory@,
            },
            State::Windows { label, directory } => StateView::Windows {
                label: label@,
                directory: directory@,
            },
            State::Worktrees { purpose } => StateView::Worktrees { purpose: *purpose },
            State::WorktreeChoice { purpose } => StateView::WorktreeChoice { purpose: *purpose },
            State::ChosenWorktree { name, purpose } => StateView::ChosenWorktree {
                name: name@,
                purpose: *purpose,
            },
            State::LocalBranches { worktree } => StateView::LocalBranches { worktree: worktree@ },
            State::ReleaseBranches { spec } => StateView::ReleaseBranches { spec: spec@ },
            State::ReleaseChoice { spec } => StateView::ReleaseChoice { spec: spec@ },
            State::Running { blame, rest } => StateView::Running {
                blame: *blame,
                rest: rest.deep_view(),
            },
        }
    }
}

/// An action under way: what it has learnt so far, while one request is
/// pending.
#[derive(Debug, PartialEq, Eq)]
pub struct Engine {
    state: State,
}

impl View for Engine {
    type V = StateView;

    closed spec fn view(&self) -> StateView {
        self.state@
    }
}

/// Where an action stands: it asks something and waits, or it is over.
#[derive(Debug, PartialEq, Eq)]
pub enum Progress {
    /// `request` is to be carried out, and its answer handed to `engine`.
    Ask { request: Request, engine: Engine },
    /// The action is done.
    Finished,
    /// The action was given up.
    Failed(Failure),
}

impl View for Progress {
    type V = ProgressView;

    open spec fn view(&self) -> ProgressView {
        match self {
            Progress::Ask { request, engine } => ProgressView::Ask {
                request: request@,
                state: engine@,
            },
            Progress::Finished => ProgressView::Finished,
            Progress::Failed(failure) => ProgressView::Failed(failure@),
        }
    }
}

impl Progress {
    /// The status to leave the process with: 0 after success, 1 after any
    /// failure; none while a request is pending.
    pub fn exit_status(&self) -> (status: Option<i32>)
        ensures
            match status {
                Some(code) => model::exit_status(self@) == Some(code as int),
                None => model::exit_status(self@) is None,
            },
    {
        match self {
            Progress::Ask { .. } => None,
            Progress::Finished => Some(0),
            Progress::Failed(_) => Some(1),
        }
    }
}

fn ask(request: Request, state: State) -> (progress: Progress)
    ensures
        progress@ == (ProgressView::Ask { request: request@, state: state@ }),
{
    Progress::Ask { request, engine: Engine { state } }
}

fn blame_of(request: &Request) -> (blame: Blame)
    ensures
        blame == model::blame_of(request@),
{
    match request {
        Request::CreateBranch { .. } => Blame::Branch,
        Request::CreateWorktree { .. } => Blame::Worktree,
        _ => Blame::Command,
    }
}

fn failure(blame: Blame, message: String) -> (failure: Failure)
    ensures
        failure@ == model::failure(blame, message@),
{
    match blame {
        Blame::Branch => Failure::BranchCreateFailed(message),
        Blame::Worktree => Failure::WorktreeCreateFailed(message),
        Blame::Command => Failure::ExternalCommandFailed(message),
    }
}

fn blamed(state: &State) -> (blame: Blame)
    ensures
        blame == model::blamed(state@),
{
    match state {
        State::Resolving { step: ResolveStep::Branch, .. } => Blame::Branch,
        State::WorktreeAdded { .. } => Blame::Worktree,
        State::Running { blame, .. } => *blame,
        _ => Blame::Command,
    }
}

fn run(plan: Vec<Request>) -> (progress: Progress)
    ensures
        progress@ == model::run(plan.deep_view()),
{
    let mut rest = plan;
    if rest.len() == 0 {
        Progress::Finished
    } else {
        let ghost all = rest.deep_view();
        let request = rest.remove(0);
        assert(rest.deep_view() =~= all.skip(1));
        let blame = blame_of(&request);
        ask(request, State::Running { blame, rest })
    }
}

fn run_one(request: Request) -> (progress: Progress)
    ensures
        progress@ == model::run(seq![request@]),
{
    let mut plan: Vec<Request> = Vec::new();
    plan.push(request);
    assert(plan.deep_view() =~= seq![request@]);
    run(plan)
}

fn resolve(token: String, stash: bool, root: Option<String>) -> (progress: Progress)
    ensures
        progress@ == model::resolve(token@, stash, root.deep_view()),
{
    ask(
        Request::FindBranch { name: token.clone(), scope: Scope::Local },
        State::Resolving { step: ResolveStep::Local, token, stash, root },
    )
}

fn create_or_focus(branch: String, root: Option<String>) -> (progress: Progress)
    ensures
        progress@ == model::create_or_focus(branch@, root.deep_view()),
{
    ask(
        Request::FindWorktree { name: derive_worktree_name(branch.as_str()) },
        State::Worktree { branch, root },
    )
}

fn show(label: String, directory: String) -> (progress: Progress)
    ensures
        progress@ == model::show(label@, directory@),
{
    ask(Request::ListWindows, State::Windows { label, directory })
}

fn pick_worktree(purpose: Purpose) -> (progress: Progress)
    ensures
        progress@ == model::pick_worktree(purpose),
{
    ask(Request::ListWorktrees, State::Worktrees { purpose })
}

fn remove(worktree: String) -> (progress: Progress)
    ensures
        progress@ == model::remove(worktree@),
{
    ask(Request::ListBranches { scope: Scope::Local }, State::LocalBranches { worktree })
}

/// The first of `branches` whose key is that of `worktree`.
pub fn find_matching_branch(branches: &Vec<String>, worktree: &str) -> (found: Option<String>)
    ensures
        found.deep_view() == model::matching_branch(branches.deep_view(), worktree@),
{
    let key = normalize(worktree);
    let mut i: usize = 0;
    proof {
        assert(branches.deep_view().skip(0) =~= branches.deep_view());
    }
    while i < branches.len()
        invariant
            i <= branches.len(),
            key@ == crate::names::normalized(worktree@),
            model::matching_branch(branches.deep_view(), worktree@) == model::matching_branch(
                branches.deep_view().skip(i as int),
                worktree@,
            ),
        decreases branches.len() - i,
    {
        proof {
            assert(branches.deep_view().skip(i as int).skip(1) =~= branches.deep_view().skip(
                i + 1,
            ));
        }
        if normalize(branches[i].as_str()) == key {
            return Some(branches[i].clone());
        }
        i += 1;
    }
    None
}

/// Takes the first of what the user picked.
fn first_of(picked: Vec<String>) -> (first: Option<String>)
    ensures
        first.is_some() == (picked.len() > 0),
        first matches Some(name) ==> name@ == picked.deep_view()[0],
{
    let mut picked = picked;
    if picked.len() == 0 {
        None
    } else {
        Some(picked.swap_remove(0))
    }
}

/// Begins `action`: the first request, or the failure that keeps the action
/// from starting.
///
/// `metadata_dir` is where the checkout at hand keeps its metadata, and
/// `linked` whether that checkout is a linked worktree. The repository's
/// root is read off them, and is asked for only where a worktree is created.
pub fn begin(action: Action, metadata_dir: &str, linked: bool) -> (progress: Progress)
    ensures
        progress@ == model::begin(action@, repository_root(metadata_dir@, linked)),
{
    let repo_root = repo_root(metadata_dir, linked);
    match action {
        Action::Create(command) => match command.branch_to_create {
            Some(token) => resolve(token, command.stash, repo_root),
            None => ask(
                Request::ListBranches { scope: Scope::Remote },
                State::RemoteBranches { stash: command.stash, root: repo_root },
            ),
        },
        Action::Switch => pick_worktree(Purpose::Switch),
        Action::Remove => pick_worktree(Purpose::Remove),
        Action::Backport(command) => {
            let name = command.branch_to_create.clone();
            match backport_spec(command) {
                Some(spec) => ask(
                    Request::ListBranches { scope: Scope::Remote },
                    State::ReleaseBranches { spec },
                ),
                None => Progress::Failed(Failure::MalformedBranchName(name)),
            }
        },
    }
}

impl Engine {
    /// Takes the answer to the pending request and says how the action goes
    /// on.
    pub fn advance(self, reply: Reply) -> (progress: Progress)
        ensures
            progress@ == model::advance(self@, reply@),
    {
        let blame = blamed(&self.state);
        let reply = match reply {
            Reply::Failed(message) => {
                return Progress::Failed(failure(blame, message));
            },
            other => other,
        };
        match self.state {
            State::RemoteBranches { stash, root } => match reply {
                Reply::Names(names) => ask(
                    Request::Choose(select_remote_branch(&names, None)),
                    State::BranchChoice { stash, root },
                ),
                _ => Progress::Failed(Failure::UnexpectedReply),
            },
            State::BranchChoice { stash, root } => match reply {
                Reply::Picked(picked) => match first_of(picked) {
                    Some(chosen) => resolve(local_branch_name(chosen.as_str()), stash, root),
                    None => Progress::Failed(Failure::SelectionAborted),
                },
                Reply::Aborted => Progress::Failed(Failure::SelectionAborted),
                _ => Progress::Failed(Failure::UnexpectedReply),
            },
            State::Resolving { step, token, stash, root } => {
                advance_resolving(step, token, stash, root, reply)
            },
            State::Worktree { branch, root } => match reply {
                Reply::Worktree(found) => {
                    let label = derive_worktree_name(branch.as_str());
                    match (found, root) {
                        (Some(directory), _) => show(label, directory),
                        (None, Some(root)) => {
                            let path = derive_path(root.as_str(), label.as_str());
                            ask(
                                Request::CreateWorktree { path: path.clone(), branch },
                                State::WorktreeAdded { label, directory: path },
                            )
                        },
                        (None, None) => Progress::Failed(Failure::NoRepositoryRoot),
                    }
                },
                _ => Progress::Failed(Failure::UnexpectedReply),
            },
            State::WorktreeAdded { label, directory } => match reply {
                Reply::Done => show(label, directory),
                _ => Progress::Failed(Failure::UnexpectedReply),
            },
            State::Windows { label, directory } => match reply {
                Reply::Names(labels) => {
                    if is_listed(&labels, label.as_str()) {
                        run_one(Request::FocusWindow { label })
                    } else {
                        run_one(Request::CreateWindow { label, directory })
                    }
                },
                _ => Progress::Failed(Failure::UnexpectedReply),
            },
            State::Worktrees { purpose } => match reply {
                Reply::Names(names) => {
                    if names.len() == 0 {
                        Progress::Failed(Failure::NoSuchWorktree)
                    } else {
                        ask(
                            Request::Choose(select_worktree(names)),
                            State::WorktreeChoice { purpose },
                        )
                    }
                },
                _ => Progress::Failed(Failure::UnexpectedReply),
            },
            State::WorktreeChoice { purpose } => match reply {
                Reply::Picked(picked) => match first_of(picked) {
                    Some(name) => ask(
                        Request::FindWorktree { name: name.clone() },
                        State::ChosenWorktree { name, purpose },
                    ),
                    None => Progress::Failed(Failure::SelectionAborted),
                },
                Reply::Aborted => Progress::Failed(Failure::SelectionAborted),
                _ => Progress::Failed(Failure::UnexpectedReply),
            },
            State::ChosenWorktree { name, purpose } => match reply {
                Reply::Worktree(found) => match found {
                    None => Progress::Failed(Failure::NoSuchWorktree),
                    Some(directory) => match purpose {
                        Purpose::Switch => show(name, directory),
                        Purpose::Remove => remove(name),
                    },
                },
                _ => Progress::Failed(Failure::UnexpectedReply),
            },
            State::LocalBranches { worktree } => match reply {
                Reply::Names(branches) => {
                    match find_matching_branch(&branches, worktree.as_str()) {
                        Some(branch) => run(teardown(worktree, branch)),
                        None => Progress::Failed(Failure::NoMatchingBranch),
                    }
                },
                _ => Progress::Failed(Failure::UnexpectedReply),
            },
            State::ReleaseBranches { spec } => match reply {
                Reply::Names(names) => ask(
                    Request::Choose(
                        select_remote_branch(&names, Some("origin/release".to_owned())),
                    ),
                    State::ReleaseChoice { spec },
                ),
                _ => Progress::Failed(Failure::UnexpectedReply),
            },
            State::ReleaseChoice { spec } => match reply {
                Reply::Picked(picked) => {
                    if picked.len() == 0 {
                        Progress::Failed(Failure::SelectionAborted)
                    } else {
                        match plan(&picked, &spec) {
                            Ok(steps) => run(steps),
                            Err(failure) => Progress::Failed(failure),
                        }
                    }
                },
                Reply::Aborted => Progress::Failed(Failure::SelectionAborted),
                _ => Progress::Failed(Failure::UnexpectedReply),
            },
            State::Running { blame: _, rest } => match reply {
                Reply::Done => run(rest),
                _ => Progress::Failed(Failure::UnexpectedReply),
            },
        }
    }
}

fn advance_resolving(step: ResolveStep, token: String, stash: bool, root: Option<String>, reply: Reply) -> (progress: Progress)
    requires
        !(reply is Failed),
    ensures
        progress@ == model::advance(
            StateView::Resolving { step, token: token@, stash, root: root.deep_view() },
            reply@,
        ),
{
    match (step, reply) {
        (ResolveStep::Local, Reply::Found(true)) => create_or_focus(token, root),
        (ResolveStep::Local, Reply::Found(false)) => ask(
            Request::PruneRemote { remote: "origin".to_owned() },
            State::Resolving { step: ResolveStep::Prune, token, stash, root },
        ),
        (ResolveStep::Prune, Reply::Done) => ask(
            Request::FindBranch { name: remote_branch_name(token.as_str()), scope: Scope::Remote },
            State::Resolving { step: ResolveStep::Remote, token, stash, root },
        ),
        (ResolveStep::Remote, Reply::Found(true)) => ask(
            Request::FetchBranch { name: token.clone() },
            State::Resolving { step: ResolveStep::Fetch, token, stash, root },
        ),
        (ResolveStep::Remote, Reply::Found(false)) => {
            if stash {
                ask(
                    Request::Stash,
                    State::Resolving { step: ResolveStep::Stash, token, stash, root },
                )
            } else {
                ask(
                    Request::CurrentHead,
                    State::Resolving { step: ResolveStep::Head, token, stash, root },
                )
            }
        },
        (ResolveStep::Fetch, Reply::Done) => ask(
            Request::SetUpstream {
                local: token.clone(),
                remote: remote_branch_name(token.as_str()),
            },
            State::Resolving { step: ResolveStep::Upstream, token, stash, root },
        ),
        (ResolveStep::Upstream, Reply::Done) => create_or_focus(token, root),
        (ResolveStep::Stash, Reply::Done) => ask(
            Request::CurrentHead,
            State::Resolving { step: ResolveStep::Head, token, stash, root },
        ),
        (ResolveStep::Head, Reply::Commit(head)) => ask(
            Request::CreateBranch { name: token.clone(), at: Some(head) },
            State::Resolving { step: ResolveStep::Branch, token, stash, root },
        ),
        (ResolveStep::Branch, Reply::Done) => create_or_focus(token, root),
        _ => Progress::Failed(Failure::UnexpectedReply),
    }
}

/// The requests that take a worktree down, with its branch and its window.
pub fn teardown(worktree: String, branch: String) -> (steps: Vec<Request>)
    ensures
        steps.deep_view() == model::teardown(worktree@, branch@),
{
    let mut steps: Vec<Request> = Vec::new();
    steps.push(Request::RemoveWorktree { name: worktree.clone() });
    steps.push(Request::DeleteBranch { name: branch });
    steps.push(Request::DestroyWindow { label: worktree });
    steps
}

} // verus!
