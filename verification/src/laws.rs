//! What holds of every run of the engine.

use vstd::prelude::*;
use crate::action::{ActionView, BackportCommandView, CreateCommandView};
use crate::backport::{described_by, planned, steps, BackportSpecView};
use crate::fuzzy::{offered, SelectionView};
use crate::model::{
    advance, begin, blame_of, exit_status, failure, matching_branch, on_origin, origin, create_or_focus,
    release_filter, remove, resolve, run, ProgressView, ResolveStep, StateView,
};
use crate::names::{
    local_name, local_name_of_its_remote, normalized, worktree_name, worktree_name_keeps_the_key,
};
use crate::requests::{only_asks, FailureView, ReplyView, RequestView, Scope};

verus! {

/// The requests an action makes from `progress` on while `replies` answer
/// them one after the other: the pending one, then the one that follows each
/// reply, until the replies or the action end.
pub open spec fn requests(progress: ProgressView, replies: Seq<ReplyView>) -> Seq<RequestView>
    decreases replies.len(),
{
    match progress {
        ProgressView::Ask { request, state } => {
            if replies.len() == 0 {
                seq![request]
            } else {
                seq![request] + requests(advance(state, replies[0]), replies.skip(1))
            }
        },
        _ => Seq::empty(),
    }
}

/// Where an action stands after `replies` have answered its requests, one
/// after the other. Replies beyond the action's end are not looked at.
pub open spec fn after(progress: ProgressView, replies: Seq<ReplyView>) -> ProgressView
    decreases replies.len(),
{
    match progress {
        ProgressView::Ask { request, state } => {
            if replies.len() == 0 {
                progress
            } else {
                after(advance(state, replies[0]), replies.skip(1))
            }
        },
        _ => progress,
    }
}

/// How far a state is from the last stage of its action, in which steps are
/// only run one after the other: that stage is 0.
pub open spec fn stage(state: StateView) -> nat {
    match state {
        StateView::Running { .. } => 0,
        StateView::Windows { .. } => 1,
        StateView::WorktreeAdded { .. } => 2,
        StateView::Worktree { .. } => 3,
        StateView::Resolving { step, .. } => match step {
            ResolveStep::Branch => 4,
            ResolveStep::Upstream => 4,
            ResolveStep::Head => 5,
            ResolveStep::Fetch => 5,
            ResolveStep::Stash => 6,
            ResolveStep::Remote => 7,
            ResolveStep::Prune => 8,
            ResolveStep::Local => 9,
        },
        StateView::BranchChoice { .. } => 10,
        StateView::RemoteBranches { .. } => 11,
        StateView::LocalBranches { .. } => 1,
        StateView::ChosenWorktree { .. } => 2,
        StateView::WorktreeChoice { .. } => 3,
        StateView::Worktrees { .. } => 4,
        StateView::ReleaseChoice { .. } => 1,
        StateView::ReleaseBranches { .. } => 2,
    }
}

/// How many of the last steps are still to be asked.
pub open spec fn steps_left(state: StateView) -> nat {
    match state {
        StateView::Running { rest, .. } => rest.len(),
        _ => 0,
    }
}

/// Every action comes to an end: each answer takes it to a lower stage, or,
/// in the last stage, leaves one step fewer to ask.
pub proof fn every_answer_brings_the_end_nearer(state: StateView, reply: ReplyView)
    ensures
        advance(state, reply) matches ProgressView::Ask { state: next, .. } ==> {
            ||| stage(next) < stage(state)
            ||| stage(next) == stage(state) && steps_left(next) < steps_left(state)
        },
{
}

/// Whether a request creates, moves or configures a branch, or fetches.
pub open spec fn resolves(request: RequestView) -> bool {
    ||| request is PruneRemote
    ||| request is FetchBranch
    ||| request is SetUpstream
    ||| request is CreateBranch
    ||| request is Stash
}

/// Once a branch is resolved, the rest of a create action leaves branches
/// and remotes alone: it looks the worktree up, creates it at most once, and
/// goes to its window.
pub proof fn worktree_stage_leaves_branches_alone(
    branch: Seq<char>,
    root: Option<Seq<char>>,
    replies: Seq<ReplyView>,
)
    ensures
        requests(create_or_focus(branch, root), replies).len() <= 4,
        forall|i: int|
            0 <= i < requests(create_or_focus(branch, root), replies).len() ==> !resolves(
                #[trigger] requests(create_or_focus(branch, root), replies)[i],
            ),
{
    reveal_with_fuel(requests, 6);
}

/// A worktree that exists is not created again: the create action goes to
/// its window, at the path the worktree has, and asks for no worktree to be
/// created.
pub proof fn existing_worktree_is_only_shown(
    branch: Seq<char>,
    root: Option<Seq<char>>,
    directory: Seq<char>,
    labels: Seq<Seq<char>>,
    replies: Seq<ReplyView>,
)
    requires
        replies.len() >= 2,
        replies[0] == ReplyView::Worktree(Some(directory)),
        replies[1] == ReplyView::Names(labels),
    ensures
        requests(create_or_focus(branch, root), replies) == seq![
            RequestView::FindWorktree { name: worktree_name(branch) },
            RequestView::ListWindows,
            if labels.contains(worktree_name(branch)) {
                RequestView::FocusWindow { label: worktree_name(branch) }
            } else {
                RequestView::CreateWindow { label: worktree_name(branch), directory }
            },
        ],
{
    reveal_with_fuel(requests, 6);
}

/// A worktree that is missing is created once, at the repository's root
/// joined with its name and bound to the branch, before its window is gone
/// to. Where the creation fails, the action fails with what version control
/// said, and no window is asked for.
pub proof fn missing_worktree_is_created_once(
    branch: Seq<char>,
    root: Seq<char>,
    message: Seq<char>,
    replies: Seq<ReplyView>,
)
    requires
        replies.len() >= 2,
        replies[0] == ReplyView::Worktree(None),
    ensures
        ({
            let asked = requests(create_or_focus(branch, Some(root)), replies);
            &&& asked[1] == RequestView::CreateWorktree {
                path: root + worktree_name(branch),
                branch,
            }
            &&& forall|i: int|
                0 <= i < asked.len() && i != 1 ==> !(#[trigger] asked[i] is CreateWorktree)
            &&& replies[1] == ReplyView::Done ==> asked[2] == RequestView::ListWindows
            &&& replies[1] == ReplyView::Failed(message) ==> {
                &&& asked.len() == 2
                &&& after(create_or_focus(branch, Some(root)), replies) == ProgressView::Failed(
                    FailureView::WorktreeCreateFailed(message),
                )
            }
        }),
{
    reveal_with_fuel(requests, 6);
    reveal_with_fuel(after, 6);
}

/// Where the repository has no root directory, a worktree that is missing
/// cannot be created: the action fails with `NoRepositoryRoot`, and all it
/// did was look the worktree up. A worktree that exists needs no root.
pub proof fn missing_worktree_needs_a_root(
    branch: Seq<char>,
    more: Seq<ReplyView>,
)
    ensures
        ({
            let replies = seq![ReplyView::Worktree(None)] + more;
            &&& requests(create_or_focus(branch, None), replies) == seq![
                RequestView::FindWorktree { name: worktree_name(branch) },
            ]
            &&& after(create_or_focus(branch, None), replies) == ProgressView::Failed(
                FailureView::NoRepositoryRoot,
            )
        }),
{
    reveal_with_fuel(requests, 3);
    reveal_with_fuel(after, 3);
    let replies = seq![ReplyView::Worktree(None)] + more;
    assert(replies[0] == ReplyView::Worktree(None));
    assert(requests(create_or_focus(branch, None), replies) =~= seq![
        RequestView::FindWorktree { name: worktree_name(branch) },
    ]);
}

/// A create action resolves its branch first: the branch that was named, or
/// else the local branch of the first remote branch that the user picked.
pub proof fn create_resolves_its_branch(
    token: Seq<char>,
    stash: bool,
    root: Option<Seq<char>>,
    names: Seq<Seq<char>>,
    picked: Seq<Seq<char>>,
)
    requires
        picked.len() > 0,
    ensures
        begin(
            ActionView::Create(CreateCommandView { branch_to_create: Some(token), stash }),
            root,
        ) == resolve(token, stash, root),
        after(
            begin(ActionView::Create(CreateCommandView { branch_to_create: None, stash }), root),
            seq![ReplyView::Names(names), ReplyView::Picked(picked)],
        ) == resolve(local_name(picked[0]), stash, root),
{
    reveal_with_fuel(after, 3);
}

/// The remote branch that is looked up for a picked branch is the picked
/// one: picking `origin/<branch>` resolves `<branch>`, whose lookup on the
/// remote asks for `origin/<branch>` again.
pub proof fn picked_branch_is_the_one_looked_up(branch: Seq<char>)
    ensures
        local_name(on_origin(branch)) == branch,
        on_origin(local_name(on_origin(branch))) == on_origin(branch),
{
    local_name_of_its_remote(branch);
}

/// A token that names a local branch is resolved to that branch at once:
/// after the one lookup the action goes on with the worktree, and nothing is
/// fetched, created or stashed in the whole run.
pub proof fn local_branch_is_taken_as_it_is(
    token: Seq<char>,
    stash: bool,
    root: Option<Seq<char>>,
    replies: Seq<ReplyView>,
)
    requires
        replies.len() >= 1,
        replies[0] == ReplyView::Found(true),
    ensures
        requests(resolve(token, stash, root), replies) == seq![
            RequestView::FindBranch { name: token, scope: Scope::Local },
        ] + requests(create_or_focus(token, root), replies.skip(1)),
        forall|i: int|
            0 <= i < requests(resolve(token, stash, root), replies).len() ==> !resolves(
                #[trigger] requests(resolve(token, stash, root), replies)[i],
            ),
{
    reveal_with_fuel(requests, 2);
    worktree_stage_leaves_branches_alone(token, root, replies.skip(1));
}

/// A token that names no local branch but a branch of the remote: after the
/// refresh of the remote-tracking branches, the branch is fetched once into
/// the local branch of its name, which is made to track it once, and no
/// branch is created.
pub proof fn remote_branch_is_fetched_and_tracked(
    token: Seq<char>,
    stash: bool,
    root: Option<Seq<char>>,
    replies: Seq<ReplyView>,
)
    requires
        replies.len() >= 5,
        replies[0] == ReplyView::Found(false),
        replies[1] == ReplyView::Done,
        replies[2] == ReplyView::Found(true),
        replies[3] == ReplyView::Done,
        replies[4] == ReplyView::Done,
    ensures
        requests(resolve(token, stash, root), replies) == seq![
            RequestView::FindBranch { name: token, scope: Scope::Local },
            RequestView::PruneRemote { remote: origin() },
            RequestView::FindBranch { name: on_origin(token), scope: Scope::Remote },
            RequestView::FetchBranch { name: token },
            RequestView::SetUpstream { local: token, remote: on_origin(token) },
        ] + requests(create_or_focus(token, root), replies.skip(5)),
        forall|i: int|
            0 <= i < requests(resolve(token, stash, root), replies).len() && i != 3 ==> !(
            #[trigger] requests(resolve(token, stash, root), replies)[i] is FetchBranch),
        forall|i: int|
            0 <= i < requests(resolve(token, stash, root), replies).len() && i != 4 ==> !(
            #[trigger] requests(resolve(token, stash, root), replies)[i] is SetUpstream),
        forall|i: int|
            0 <= i < requests(resolve(token, stash, root), replies).len() ==> !(
            #[trigger] requests(resolve(token, stash, root), replies)[i] is CreateBranch),
{
    let all = requests(resolve(token, stash, root), replies);
    let tail = requests(create_or_focus(token, root), replies.skip(5));
    let head = seq![
        RequestView::FindBranch { name: token, scope: Scope::Local },
        RequestView::PruneRemote { remote: origin() },
        RequestView::FindBranch { name: on_origin(token), scope: Scope::Remote },
        RequestView::FetchBranch { name: token },
        RequestView::SetUpstream { local: token, remote: on_origin(token) },
    ];
    assert(all =~= head + tail) by {
        reveal_with_fuel(requests, 6);
        assert(replies.skip(1).skip(1).skip(1).skip(1).skip(1) =~= replies.skip(5));
    }
    worktree_stage_leaves_branches_alone(token, root, replies.skip(5));
    assert forall|i: int| 0 <= i < all.len() implies (i < 5 ==> all[i] == head[i]) && (i >= 5
        ==> all[i] == tail[i - 5]) by {}
}

/// What a create action asks for a token that names neither a local branch
/// nor one of the remote, up to the creation of the branch.
pub open spec fn creation(token: Seq<char>, stash: bool, head: Seq<char>) -> Seq<RequestView> {
    let lookups = seq![
        RequestView::FindBranch { name: token, scope: Scope::Local },
        RequestView::PruneRemote { remote: origin() },
        RequestView::FindBranch { name: on_origin(token), scope: Scope::Remote },
    ];
    let create = seq![
        RequestView::CurrentHead,
        RequestView::CreateBranch { name: token, at: Some(head) },
    ];
    if stash {
        lookups + seq![RequestView::Stash] + create
    } else {
        lookups + create
    }
}

/// The replies that take a create action to the creation of a new branch:
/// no local branch, the refresh done, no branch on the remote, the stash
/// done where one was asked for, and the commit that `HEAD` points at.
pub open spec fn creation_replies(stash: bool, head: Seq<char>) -> Seq<ReplyView> {
    let lookups = seq![ReplyView::Found(false), ReplyView::Done, ReplyView::Found(false)];
    if stash {
        lookups + seq![ReplyView::Done, ReplyView::Commit(head)]
    } else {
        lookups + seq![ReplyView::Commit(head)]
    }
}

/// A token that names neither a local branch nor one of the remote: after
/// the refresh, and after a stash where one was asked for and only there,
/// `HEAD` is read and one branch of that name is created at the commit it
/// points at. Nothing is fetched into a branch or made to track.
pub proof fn unknown_branch_is_created_once(
    token: Seq<char>,
    stash: bool,
    root: Option<Seq<char>>,
    head: Seq<char>,
    more: Seq<ReplyView>,
)
    ensures
        ({
            let all = requests(resolve(token, stash, root), creation_replies(stash, head) + more);
            let made = creation(token, stash, head);
            let at = made.len() - 1;
            &&& made.len() <= all.len()
            &&& all.take(made.len() as int) == made
            &&& all[at] == RequestView::CreateBranch { name: token, at: Some(head) }
            &&& forall|i: int| 0 <= i < all.len() && i != at ==> !(#[trigger] all[i] is CreateBranch)
            &&& forall|i: int|
                0 <= i < all.len() ==> !(#[trigger] all[i] is FetchBranch) && !(all[i] is SetUpstream)
            &&& stash ==> all[3] == RequestView::Stash
            &&& forall|i: int| 0 <= i < all.len() && !(stash && i == 3) ==> !(#[trigger] all[i] is Stash)
        }),
{
    let replies = creation_replies(stash, head) + more;
    let all = requests(resolve(token, stash, root), replies);
    let made = creation(token, stash, head);
    let n = made.len() as int;
    let tail = if more.len() > 0 && more[0] == ReplyView::Done {
        requests(create_or_focus(token, root), more.skip(1))
    } else {
        Seq::empty()
    };
    if stash {
        lemma_creation_with_stash(token, root, head, more);
    } else {
        lemma_creation_without_stash(token, root, head, more);
    }
    assert(all == made + tail);
    if more.len() > 0 {
        worktree_stage_leaves_branches_alone(token, root, more.skip(1));
    }
    assert(all.take(n) =~= made);
    assert forall|i: int| 0 <= i < all.len() implies (i < n ==> all[i] == made[i]) && (i >= n
        ==> all[i] == tail[i - n]) by {}
}

proof fn lemma_creation_without_stash(
    token: Seq<char>,
    root: Option<Seq<char>>,
    head: Seq<char>,
    more: Seq<ReplyView>,
)
    ensures
        requests(resolve(token, false, root), creation_replies(false, head) + more) == creation(
            token,
            false,
            head,
        ) + if more.len() > 0 && more[0] == ReplyView::Done {
            requests(create_or_focus(token, root), more.skip(1))
        } else {
            Seq::empty()
        },
{
    let replies = creation_replies(false, head) + more;
    let r1 = replies.skip(1);
    let r2 = r1.skip(1);
    let r3 = r2.skip(1);
    let r4 = r3.skip(1);
    assert(replies[0] == ReplyView::Found(false));
    assert(r1[0] == ReplyView::Done);
    assert(r2[0] == ReplyView::Found(false));
    assert(r3[0] == ReplyView::Commit(head));
    assert(r4 =~= more);
    if more.len() > 0 {
        assert(r4.skip(1) =~= more.skip(1));
    }
    reveal_with_fuel(requests, 6);
    let tail = if more.len() > 0 && more[0] == ReplyView::Done {
        requests(create_or_focus(token, root), more.skip(1))
    } else {
        Seq::empty()
    };
    assert(requests(resolve(token, false, root), replies) =~= creation(token, false, head) + tail);
}

proof fn lemma_creation_with_stash(
    token: Seq<char>,
    root: Option<Seq<char>>,
    head: Seq<char>,
    more: Seq<ReplyView>,
)
    ensures
        requests(resolve(token, true, root), creation_replies(true, head) + more) == creation(
            token,
            true,
            head,
        ) + if more.len() > 0 && more[0] == ReplyView::Done {
            requests(create_or_focus(token, root), more.skip(1))
        } else {
            Seq::empty()
        },
{
    let replies = creation_replies(true, head) + more;
    let r1 = replies.skip(1);
    let r2 = r1.skip(1);
    let r3 = r2.skip(1);
    let r4 = r3.skip(1);
    let r5 = r4.skip(1);
    assert(replies[0] == ReplyView::Found(false));
    assert(r1[0] == ReplyView::Done);
    assert(r2[0] == ReplyView::Found(false));
    assert(r3[0] == ReplyView::Done);
    assert(r4[0] == ReplyView::Commit(head));
    assert(r5 =~= more);
    if more.len() > 0 {
        assert(r5.skip(1) =~= more.skip(1));
    }
    reveal_with_fuel(requests, 7);
    let tail = if more.len() > 0 && more[0] == ReplyView::Done {
        requests(create_or_focus(token, root), more.skip(1))
    } else {
        Seq::empty()
    };
    assert(requests(resolve(token, true, root), replies) =~= creation(token, true, head) + tail);
}

/// Where creating the branch fails, with or without a stash before it, the
/// action fails with what version control said, and asks nothing more.
pub proof fn failed_branch_creation_is_reported(
    token: Seq<char>,
    stash: bool,
    root: Option<Seq<char>>,
    head: Seq<char>,
    message: Seq<char>,
    more: Seq<ReplyView>,
)
    ensures
        ({
            let replies = creation_replies(stash, head) + seq![ReplyView::Failed(message)] + more;
            &&& after(resolve(token, stash, root), replies) == ProgressView::Failed(
                FailureView::BranchCreateFailed(message),
            )
            &&& requests(resolve(token, stash, root), replies) == creation(token, stash, head)
        }),
{
    let rest = seq![ReplyView::Failed(message)] + more;
    let replies = creation_replies(stash, head) + rest;
    assert(creation_replies(stash, head) + seq![ReplyView::Failed(message)] + more =~= replies);
    assert(rest[0] == ReplyView::Failed(message));
    if stash {
        lemma_creation_with_stash(token, root, head, rest);
    } else {
        lemma_creation_without_stash(token, root, head, rest);
    }
    assert(creation(token, stash, head) + Seq::<RequestView>::empty() =~= creation(
        token,
        stash,
        head,
    ));
    lemma_after_creation_failed(token, stash, root, head, message, more);
}

proof fn lemma_after_creation_failed(
    token: Seq<char>,
    stash: bool,
    root: Option<Seq<char>>,
    head: Seq<char>,
    message: Seq<char>,
    more: Seq<ReplyView>,
)
    ensures
        after(
            resolve(token, stash, root),
            creation_replies(stash, head) + (seq![ReplyView::Failed(message)] + more),
        ) == ProgressView::Failed(FailureView::BranchCreateFailed(message)),
{
    let replies = creation_replies(stash, head) + (seq![ReplyView::Failed(message)] + more);
    let r1 = replies.skip(1);
    let r2 = r1.skip(1);
    let r3 = r2.skip(1);
    let r4 = r3.skip(1);
    assert(replies[0] == ReplyView::Found(false));
    assert(r1[0] == ReplyView::Done);
    assert(r2[0] == ReplyView::Found(false));
    if stash {
        let r5 = r4.skip(1);
        assert(r3[0] == ReplyView::Done);
        assert(r4[0] == ReplyView::Commit(head));
        assert(r5[0] == ReplyView::Failed(message));
    } else {
        assert(r3[0] == ReplyView::Commit(head));
        assert(r4[0] == ReplyView::Failed(message));
    }
    reveal_with_fuel(after, 7);
}

/// Where the stash that was asked for fails, no branch is created: the
/// action fails with what version control said.
pub proof fn failed_stash_creates_no_branch(
    token: Seq<char>,
    root: Option<Seq<char>>,
    message: Seq<char>,
)
    ensures
        ({
            let replies = seq![
                ReplyView::Found(false),
                ReplyView::Done,
                ReplyView::Found(false),
                ReplyView::Failed(message),
            ];
            &&& after(resolve(token, true, root), replies) == ProgressView::Failed(
                FailureView::ExternalCommandFailed(message),
            )
            &&& requests(resolve(token, true, root), replies) == seq![
                RequestView::FindBranch { name: token, scope: Scope::Local },
                RequestView::PruneRemote { remote: origin() },
                RequestView::FindBranch { name: on_origin(token), scope: Scope::Remote },
                RequestView::Stash,
            ]
        }),
{
    reveal_with_fuel(after, 6);
    reveal_with_fuel(requests, 6);
    assert(requests(
        resolve(token, true, root),
        seq![
            ReplyView::Found(false),
            ReplyView::Done,
            ReplyView::Found(false),
            ReplyView::Failed(message),
        ],
    ) =~= seq![
        RequestView::FindBranch { name: token, scope: Scope::Local },
        RequestView::PruneRemote { remote: origin() },
        RequestView::FindBranch { name: on_origin(token), scope: Scope::Remote },
        RequestView::Stash,
    ]);
}

/// `n` times `Done`.
pub open spec fn all_done(n: nat) -> Seq<ReplyView> {
    Seq::new(n, |i: int| ReplyView::Done)
}

/// Steps that succeed are made in their order, each after the one before it
/// succeeded, and the action is finished after the last.
pub proof fn steps_run_in_order(plan: Seq<RequestView>)
    ensures
        requests(run(plan), all_done(plan.len())) == plan,
        after(run(plan), all_done(plan.len())) == ProgressView::Finished,
    decreases plan.len(),
{
    if plan.len() > 0 {
        let rest = plan.skip(1);
        steps_run_in_order(rest);
        assert(all_done(plan.len()).skip(1) =~= all_done(rest.len()));
    }
}

/// A step that fails is the last: the steps before it were made, none after
/// it is, whatever is answered then, and the action has failed with what the
/// collaborator said. Nothing is undone.
pub proof fn failed_step_ends_the_run(
    plan: Seq<RequestView>,
    k: int,
    message: Seq<char>,
    more: Seq<ReplyView>,
)
    requires
        0 <= k < plan.len(),
    ensures
        ({
            let replies = all_done(k as nat).push(ReplyView::Failed(message)) + more;
            &&& requests(run(plan), replies) == plan.take(k + 1)
            &&& after(run(plan), replies) == ProgressView::Failed(
                failure(blame_of(plan[k]), message),
            )
        }),
    decreases k,
{
    let replies = all_done(k as nat).push(ReplyView::Failed(message)) + more;
    if k == 0 {
        assert(requests(run(plan), replies) =~= plan.take(1)) by {
            reveal_with_fuel(requests, 2);
        }
        assert(after(run(plan), replies) == ProgressView::Failed(
            failure(blame_of(plan[0]), message),
        )) by {
            reveal_with_fuel(after, 2);
        }
    } else {
        let rest = plan.skip(1);
        failed_step_ends_the_run(rest, k - 1, message, more);
        assert(replies.skip(1) =~= all_done((k - 1) as nat).push(ReplyView::Failed(message))
            + more);
    }
}

/// A backport runs the plan for the release branches that the user picked,
/// which are offered among the remote branches whose name holds
/// `origin/release`. Where a picked branch cannot be planned for, the
/// backport fails before it has changed anything.
pub proof fn backport_runs_its_plan(
    command: BackportCommandView,
    root: Option<Seq<char>>,
    names: Seq<Seq<char>>,
    picked: Seq<Seq<char>>,
)
    requires
        described_by(command) is Some,
        picked.len() > 0,
    ensures
        ({
            let spec = described_by(command).unwrap();
            let start = begin(ActionView::Backport(command), root);
            let replies = seq![ReplyView::Names(names), ReplyView::Picked(picked)];
            &&& requests(start, replies).take(2) == seq![
                RequestView::ListBranches { scope: Scope::Remote },
                RequestView::Choose(
                    SelectionView {
                        candidates: offered(names, Some(release_filter())),
                        multi: true,
                    },
                ),
            ]
            &&& match planned(spec, picked) {
                Ok(plan) => after(start, replies) == run(plan),
                Err(failure) => {
                    &&& after(start, replies) == ProgressView::Failed(failure)
                    &&& requests(start, replies).len() == 2
                },
            }
        }),
{
    reveal_with_fuel(requests, 4);
    reveal_with_fuel(after, 4);
}

/// A backport brings each release branch in under its own name: for the
/// remote branch `origin/<release>` it fetches `<release>` into the local
/// branch `<release>` and makes that track `origin/<release>`, whatever
/// `<release>` holds.
pub proof fn backport_fetches_the_release_under_its_name(
    spec: BackportSpecView,
    release: Seq<char>,
)
    requires
        steps(spec, on_origin(release)) is Some,
    ensures
        steps(spec, on_origin(release)).unwrap()[0] == (RequestView::FetchBranch { name: release }),
        steps(spec, on_origin(release)).unwrap()[1] == (RequestView::SetUpstream {
            local: release,
            remote: on_origin(release),
        }),
        steps(spec, on_origin(release)).unwrap()[2] == (RequestView::Checkout { branch: release }),
{
    local_name_of_its_remote(release);
}

/// A switch creates nothing: it asks, goes to a window, and that is all.
/// Without worktrees it fails with `NoSuchWorktree`.
pub proof fn switch_creates_nothing(root: Option<Seq<char>>, replies: Seq<ReplyView>)
    ensures
        ({
            let asked = requests(begin(ActionView::Switch, root), replies);
            &&& forall|i: int|
                0 <= i < asked.len() ==> {
                    ||| only_asks(#[trigger] asked[i])
                    ||| asked[i] is FocusWindow
                    ||| asked[i] is CreateWindow
                }
            &&& replies.len() > 0 && replies[0] == ReplyView::Names(Seq::empty()) ==> after(
                begin(ActionView::Switch, root),
                replies,
            ) == ProgressView::Failed(FailureView::NoSuchWorktree)
        }),
{
    reveal_with_fuel(requests, 7);
    reveal_with_fuel(after, 3);
}

/// A remove action takes down the worktree that the user picked, once it is
/// found. Without worktrees, or with the picked one gone, it fails with
/// `NoSuchWorktree`; all it did was ask.
pub proof fn remove_takes_the_picked_worktree(
    root: Option<Seq<char>>,
    worktrees: Seq<Seq<char>>,
    picked: Seq<Seq<char>>,
    directory: Seq<char>,
)
    requires
        picked.len() > 0,
    ensures
        ({
            let start = begin(ActionView::Remove, root);
            let pick = seq![ReplyView::Names(worktrees), ReplyView::Picked(picked)];
            &&& worktrees.len() > 0 ==> after(
                start,
                pick.push(ReplyView::Worktree(Some(directory))),
            ) == remove(picked[0])
            &&& worktrees.len() > 0 ==> after(start, pick.push(ReplyView::Worktree(None)))
                == ProgressView::Failed(FailureView::NoSuchWorktree)
            &&& worktrees.len() == 0 ==> after(start, pick) == ProgressView::Failed(
                FailureView::NoSuchWorktree,
            )
        }),
{
    reveal_with_fuel(after, 5);
}

/// Teardown goes in its order: with a branch whose key is that of the
/// worktree, the worktree is removed, then the first such branch deleted,
/// then the window closed, and the action is finished.
pub proof fn teardown_goes_in_order(
    worktree: Seq<char>,
    branches: Seq<Seq<char>>,
    branch: Seq<char>,
)
    requires
        matching_branch(branches, worktree) == Some(branch),
    ensures
        ({
            let replies = seq![
                ReplyView::Names(branches),
                ReplyView::Done,
                ReplyView::Done,
                ReplyView::Done,
            ];
            &&& requests(remove(worktree), replies) == seq![
                RequestView::ListBranches { scope: Scope::Local },
                RequestView::RemoveWorktree { name: worktree },
                RequestView::DeleteBranch { name: branch },
                RequestView::DestroyWindow { label: worktree },
            ]
            &&& after(remove(worktree), replies) == ProgressView::Finished
            &&& normalized(branch) == normalized(worktree)
        }),
{
    reveal_with_fuel(requests, 6);
    reveal_with_fuel(after, 6);
    matching_branch_has_the_key(branches, worktree);
    assert(requests(
        remove(worktree),
        seq![ReplyView::Names(branches), ReplyView::Done, ReplyView::Done, ReplyView::Done],
    ) =~= seq![
        RequestView::ListBranches { scope: Scope::Local },
        RequestView::RemoveWorktree { name: worktree },
        RequestView::DeleteBranch { name: branch },
        RequestView::DestroyWindow { label: worktree },
    ]);
}

/// The branch that matches a worktree is one of the branches and has the
/// worktree's key; where none matches, no branch has it.
pub proof fn matching_branch_has_the_key(branches: Seq<Seq<char>>, worktree: Seq<char>)
    ensures
        match matching_branch(branches, worktree) {
            Some(branch) => branches.contains(branch) && normalized(branch) == normalized(
                worktree,
            ),
            None => forall|i: int|
                0 <= i < branches.len() ==> normalized(#[trigger] branches[i]) != normalized(
                    worktree,
                ),
        },
    decreases branches.len(),
{
    if branches.len() > 0 {
        matching_branch_has_the_key(branches.skip(1), worktree);
        match matching_branch(branches, worktree) {
            Some(branch) => {
                if normalized(branches[0]) == normalized(worktree) {
                    assert(branches[0] == branch);
                } else {
                    let rest = branches.skip(1);
                    let i = choose|i: int| 0 <= i < rest.len() && rest[i] == branch;
                    assert(branches[i + 1] == branch);
                }
            },
            None => {
                assert forall|i: int| 0 <= i < branches.len() implies normalized(
                    #[trigger] branches[i],
                ) != normalized(worktree) by {
                    if i > 0 {
                        assert(branches.skip(1)[i - 1] == branches[i]);
                    }
                }
            },
        }
    }
}

/// Among several branches with the worktree's key, the first in the list is
/// taken.
pub proof fn first_matching_branch_is_taken(
    branches: Seq<Seq<char>>,
    worktree: Seq<char>,
    i: int,
)
    requires
        0 <= i < branches.len(),
        normalized(branches[i]) == normalized(worktree),
        forall|j: int| 0 <= j < i ==> normalized(#[trigger] branches[j]) != normalized(worktree),
    ensures
        matching_branch(branches, worktree) == Some(branches[i]),
    decreases i,
{
    if i > 0 {
        assert forall|j: int| 0 <= j < i - 1 implies normalized(
            #[trigger] branches.skip(1)[j],
        ) != normalized(worktree) by {}
        first_matching_branch_is_taken(branches.skip(1), worktree, i - 1);
    }
}

/// The worktree derived from a local branch finds a branch at teardown: the
/// branch's key is the worktree's.
pub proof fn derived_worktree_finds_a_branch(branches: Seq<Seq<char>>, branch: Seq<char>)
    requires
        branches.contains(branch),
    ensures
        matching_branch(branches, worktree_name(branch)) is Some,
{
    worktree_name_keeps_the_key(branch);
    matching_branch_has_the_key(branches, worktree_name(branch));
}

/// Without a branch of the worktree's key, removal fails with
/// `NoMatchingBranch` before anything is removed: all it did was ask for the
/// branches.
pub proof fn teardown_without_branch_removes_nothing(
    worktree: Seq<char>,
    branches: Seq<Seq<char>>,
    more: Seq<ReplyView>,
)
    requires
        matching_branch(branches, worktree) is None,
    ensures
        ({
            let replies = seq![ReplyView::Names(branches)] + more;
            &&& after(remove(worktree), replies) == ProgressView::Failed(
                FailureView::NoMatchingBranch,
            )
            &&& requests(remove(worktree), replies) == seq![
                RequestView::ListBranches { scope: Scope::Local },
            ]
        }),
{
    reveal_with_fuel(requests, 3);
    reveal_with_fuel(after, 3);
    let replies = seq![ReplyView::Names(branches)] + more;
    assert(replies[0] == ReplyView::Names(branches));
    assert(requests(remove(worktree), replies) =~= seq![
        RequestView::ListBranches { scope: Scope::Local },
    ]);
}

/// Leaving the picker without a pick, when a branch is to be created and
/// none was named, ends the action with status 1, and all it did before was
/// ask.
pub proof fn aborted_selection_changes_nothing(
    stash: bool,
    root: Option<Seq<char>>,
    names: Seq<Seq<char>>,
    more: Seq<ReplyView>,
)
    ensures
        ({
            let action = ActionView::Create(CreateCommandView { branch_to_create: None, stash });
            let replies = seq![ReplyView::Names(names), ReplyView::Aborted] + more;
            let asked = requests(begin(action, root), replies);
            &&& after(begin(action, root), replies) == ProgressView::Failed(
                FailureView::SelectionAborted,
            )
            &&& exit_status(after(begin(action, root), replies)) == Some(1int)
            &&& asked == seq![
                RequestView::ListBranches { scope: Scope::Remote },
                RequestView::Choose(SelectionView { candidates: names, multi: true }),
            ]
            &&& forall|i: int| 0 <= i < asked.len() ==> only_asks(#[trigger] asked[i])
        }),
{
    reveal_with_fuel(requests, 4);
    reveal_with_fuel(after, 4);
}

} // verus!
