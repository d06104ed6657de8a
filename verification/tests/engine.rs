use twt::action::{Action, BackportCommand, CreateCommand};
use twt::engine::{begin, find_matching_branch, teardown, Progress};
use twt::fuzzy::Selection;
use twt::requests::{Failure, Reply, Request, Scope};

fn names(items: &[&str]) -> Vec<String> {
    items.iter().map(|s| s.to_string()).collect()
}

/// Answers the requests of an action with `replies`, one after the other.
/// Gives the requests that were made and where the action stands then.
fn drive(start: Progress, replies: Vec<Reply>) -> (Vec<Request>, Progress) {
    let mut asked = Vec::new();
    let mut progress = start;
    for reply in replies {
        progress = match progress {
            Progress::Ask { request, engine } => {
                asked.push(request);
                engine.advance(reply)
            }
            over => return (asked, over),
        };
    }
    if let Progress::Ask { request, .. } = &progress {
        asked.push(request.clone());
    }
    (asked, progress)
}

fn create(branch: Option<&str>, stash: bool) -> Progress {
    let command = CreateCommand { branch_to_create: branch.map(|b| b.to_string()), stash };
    begin(Action::Create(command), "/work/tool/.git/", false)
}

fn find_local(name: &str) -> Request {
    Request::FindBranch { name: name.to_string(), scope: Scope::Local }
}

fn find_remote(name: &str) -> Request {
    Request::FindBranch { name: name.to_string(), scope: Scope::Remote }
}

fn find_worktree(name: &str) -> Request {
    Request::FindWorktree { name: name.to_string() }
}

fn prune() -> Request {
    Request::PruneRemote { remote: "origin".to_string() }
}

fn failed(message: &str) -> Reply {
    Reply::Failed(message.to_string())
}

fn count(asked: &[Request], wanted: fn(&Request) -> bool) -> usize {
    asked.iter().filter(|r| wanted(r)).count()
}

#[test]
fn existing_worktree_is_focused_not_created() {
    let (asked, end) = drive(
        create(Some("feat/foo"), false),
        vec![
            Reply::Found(true),
            Reply::Worktree(Some("/elsewhere/feat-foo".to_string())),
            Reply::Names(names(&["main", "feat-foo"])),
            Reply::Done,
        ],
    );
    assert_eq!(
        asked,
        vec![
            find_local("feat/foo"),
            find_worktree("feat-foo"),
            Request::ListWindows,
            Request::FocusWindow { label: "feat-foo".to_string() },
        ]
    );
    assert_eq!(end, Progress::Finished);
    assert_eq!(count(&asked, |r| matches!(r, Request::CreateWorktree { .. })), 0);
}

#[test]
fn existing_worktree_gets_a_window_at_its_own_path() {
    let (asked, end) = drive(
        create(Some("feat/foo"), false),
        vec![
            Reply::Found(true),
            Reply::Worktree(Some("/elsewhere/feat-foo".to_string())),
            Reply::Names(names(&["main", "feat"])),
            Reply::Done,
        ],
    );
    assert_eq!(
        asked[3],
        Request::CreateWindow {
            label: "feat-foo".to_string(),
            directory: "/elsewhere/feat-foo".to_string()
        }
    );
    assert_eq!(end, Progress::Finished);
    assert_eq!(count(&asked, |r| matches!(r, Request::CreateWorktree { .. })), 0);
}

#[test]
fn missing_worktree_is_created_under_the_root() {
    let (asked, end) = drive(
        create(Some("feat/foo"), false),
        vec![
            Reply::Found(true),
            Reply::Worktree(None),
            Reply::Done,
            Reply::Names(names(&["main"])),
            Reply::Done,
        ],
    );
    assert_eq!(
        asked,
        vec![
            find_local("feat/foo"),
            find_worktree("feat-foo"),
            Request::CreateWorktree {
                path: "/work/tool/feat-foo".to_string(),
                branch: "feat/foo".to_string()
            },
            Request::ListWindows,
            Request::CreateWindow {
                label: "feat-foo".to_string(),
                directory: "/work/tool/feat-foo".to_string()
            },
        ]
    );
    assert_eq!(end, Progress::Finished);
    assert_eq!(end.exit_status(), Some(0));
}

#[test]
fn failed_worktree_creation_asks_for_no_window() {
    let (asked, end) = drive(
        create(Some("feat/foo"), false),
        vec![
            Reply::Found(true),
            Reply::Worktree(None),
            failed("fatal: '/work/tool/feat-foo' already exists"),
            Reply::Names(names(&["main"])),
        ],
    );
    assert_eq!(asked.len(), 3);
    assert_eq!(count(&asked, |r| matches!(r, Request::ListWindows)), 0);
    assert_eq!(
        end,
        Progress::Failed(Failure::WorktreeCreateFailed(
            "fatal: '/work/tool/feat-foo' already exists".to_string()
        ))
    );
    assert_eq!(end.exit_status(), Some(1));
}

#[test]
fn local_branch_is_resolved_without_fetch_or_create() {
    let (asked, _) = drive(
        create(Some("feat/foo"), true),
        vec![Reply::Found(true), Reply::Worktree(None), Reply::Done, Reply::Names(vec![]), Reply::Done],
    );
    assert_eq!(asked[0], find_local("feat/foo"));
    assert_eq!(asked[1], find_worktree("feat-foo"));
    assert_eq!(
        count(&asked, |r| matches!(
            r,
            Request::PruneRemote { .. }
                | Request::FetchBranch { .. }
                | Request::SetUpstream { .. }
                | Request::CreateBranch { .. }
                | Request::Stash
        )),
        0
    );
}

#[test]
fn remote_branch_is_fetched_once_and_tracked_once() {
    let (asked, end) = drive(
        create(Some("feat/foo"), false),
        vec![
            Reply::Found(false),
            Reply::Done,
            Reply::Found(true),
            Reply::Done,
            Reply::Done,
            Reply::Worktree(None),
            Reply::Done,
            Reply::Names(vec![]),
            Reply::Done,
        ],
    );
    assert_eq!(
        asked[..6],
        [
            find_local("feat/foo"),
            prune(),
            find_remote("origin/feat/foo"),
            Request::FetchBranch { name: "feat/foo".to_string() },
            Request::SetUpstream {
                local: "feat/foo".to_string(),
                remote: "origin/feat/foo".to_string()
            },
            find_worktree("feat-foo"),
        ]
    );
    assert_eq!(count(&asked, |r| matches!(r, Request::FetchBranch { .. })), 1);
    assert_eq!(count(&asked, |r| matches!(r, Request::SetUpstream { .. })), 1);
    assert_eq!(count(&asked, |r| matches!(r, Request::CreateBranch { .. })), 0);
    assert_eq!(end, Progress::Finished);
}

fn head() -> Reply {
    Reply::Commit("0a1b2c3".to_string())
}

fn create_at_head(name: &str) -> Request {
    Request::CreateBranch { name: name.to_string(), at: Some("0a1b2c3".to_string()) }
}

#[test]
fn unknown_branch_is_created_once() {
    let (asked, end) = drive(
        create(Some("feat/new"), false),
        vec![
            Reply::Found(false),
            Reply::Done,
            Reply::Found(false),
            head(),
            Reply::Done,
            Reply::Worktree(None),
            Reply::Done,
            Reply::Names(vec![]),
            Reply::Done,
        ],
    );
    assert_eq!(
        asked[..6],
        [
            find_local("feat/new"),
            prune(),
            find_remote("origin/feat/new"),
            Request::CurrentHead,
            create_at_head("feat/new"),
            find_worktree("feat-new"),
        ]
    );
    assert_eq!(count(&asked, |r| matches!(r, Request::CreateBranch { .. })), 1);
    assert_eq!(count(&asked, |r| matches!(r, Request::FetchBranch { .. })), 0);
    assert_eq!(count(&asked, |r| matches!(r, Request::SetUpstream { .. })), 0);
    assert_eq!(count(&asked, |r| matches!(r, Request::Stash)), 0);
    assert_eq!(end, Progress::Finished);
}

#[test]
fn unknown_branch_is_created_after_the_stash_that_was_asked_for() {
    let (asked, _) = drive(
        create(Some("feat/new"), true),
        vec![
            Reply::Found(false),
            Reply::Done,
            Reply::Found(false),
            Reply::Done,
            head(),
            Reply::Done,
        ],
    );
    assert_eq!(
        asked,
        vec![
            find_local("feat/new"),
            prune(),
            find_remote("origin/feat/new"),
            Request::Stash,
            Request::CurrentHead,
            create_at_head("feat/new"),
            find_worktree("feat-new"),
        ]
    );
}

#[test]
fn failed_branch_creation_is_reported_with_its_message() {
    let (asked, end) = drive(
        create(Some("bad..name"), false),
        vec![
            Reply::Found(false),
            Reply::Done,
            Reply::Found(false),
            head(),
            failed("fatal: 'bad..name' is not a valid branch name"),
        ],
    );
    assert_eq!(asked.len(), 5);
    assert_eq!(
        end,
        Progress::Failed(Failure::BranchCreateFailed(
            "fatal: 'bad..name' is not a valid branch name".to_string()
        ))
    );
    assert_eq!(end.exit_status(), Some(1));
}

#[test]
fn failed_stash_creates_no_branch() {
    let (asked, end) = drive(
        create(Some("feat/new"), true),
        vec![Reply::Found(false), Reply::Done, Reply::Found(false), failed("cannot stash"), head()],
    );
    assert_eq!(asked.len(), 4);
    assert_eq!(count(&asked, |r| matches!(r, Request::CreateBranch { .. })), 0);
    assert_eq!(end, Progress::Failed(Failure::ExternalCommandFailed("cannot stash".to_string())));
}

#[test]
fn failed_refresh_ends_the_action() {
    let (asked, end) = drive(
        create(Some("feat/foo"), false),
        vec![Reply::Found(false), failed("fatal: unable to access remote"), Reply::Found(true)],
    );
    assert_eq!(asked, vec![find_local("feat/foo"), prune()]);
    assert_eq!(
        end,
        Progress::Failed(Failure::ExternalCommandFailed(
            "fatal: unable to access remote".to_string()
        ))
    );
}

#[test]
fn failed_upstream_ends_the_action_and_undoes_nothing() {
    let (asked, end) = drive(
        create(Some("feat/foo"), false),
        vec![Reply::Found(false), Reply::Done, Reply::Found(true), Reply::Done, failed("no")],
    );
    assert_eq!(asked.len(), 5);
    assert_eq!(count(&asked, |r| matches!(r, Request::DeleteBranch { .. })), 0);
    assert_eq!(end, Progress::Failed(Failure::ExternalCommandFailed("no".to_string())));
}

#[test]
fn picked_remote_branch_becomes_the_token() {
    let remotes = names(&["origin/main", "origin/feat/foo"]);
    let (asked, _) = drive(
        create(None, false),
        vec![
            Reply::Names(remotes.clone()),
            Reply::Picked(names(&["origin/feat/foo", "origin/main"])),
            Reply::Found(false),
            Reply::Done,
            Reply::Found(true),
            Reply::Done,
            Reply::Done,
        ],
    );
    assert_eq!(
        asked,
        vec![
            Request::ListBranches { scope: Scope::Remote },
            Request::Choose(Selection { candidates: remotes, multi: true }),
            find_local("feat/foo"),
            prune(),
            find_remote("origin/feat/foo"),
            Request::FetchBranch { name: "feat/foo".to_string() },
            Request::SetUpstream {
                local: "feat/foo".to_string(),
                remote: "origin/feat/foo".to_string()
            },
            find_worktree("feat-foo"),
        ]
    );
}

#[test]
fn aborted_selection_exits_with_one_and_changes_nothing() {
    let (asked, end) = drive(
        create(None, true),
        vec![Reply::Names(names(&["origin/main"])), Reply::Aborted, Reply::Done],
    );
    assert_eq!(
        asked,
        vec![
            Request::ListBranches { scope: Scope::Remote },
            Request::Choose(Selection { candidates: names(&["origin/main"]), multi: true }),
        ]
    );
    assert_eq!(end, Progress::Failed(Failure::SelectionAborted));
    assert_eq!(end.exit_status(), Some(1));
}

#[test]
fn empty_pick_counts_as_aborted() {
    let (_, end) = drive(
        create(None, false),
        vec![Reply::Names(names(&["origin/main"])), Reply::Picked(vec![])],
    );
    assert_eq!(end, Progress::Failed(Failure::SelectionAborted));
}

#[test]
fn teardown_removes_worktree_then_branch_then_window() {
    let (asked, end) = drive(
        begin(Action::Remove, "/work/tool/.git/", false),
        vec![
            Reply::Names(names(&["feat-foo", "main"])),
            Reply::Picked(names(&["feat-foo"])),
            Reply::Worktree(Some("/work/tool/feat-foo".to_string())),
            Reply::Names(names(&["main", "feat/foo", "other"])),
            Reply::Done,
            Reply::Done,
            Reply::Done,
        ],
    );
    assert_eq!(
        asked,
        vec![
            Request::ListWorktrees,
            Request::Choose(Selection { candidates: names(&["feat-foo", "main"]), multi: false }),
            find_worktree("feat-foo"),
            Request::ListBranches { scope: Scope::Local },
            Request::RemoveWorktree { name: "feat-foo".to_string() },
            Request::DeleteBranch { name: "feat/foo".to_string() },
            Request::DestroyWindow { label: "feat-foo".to_string() },
        ]
    );
    assert_eq!(end, Progress::Finished);
    assert_eq!(end.exit_status(), Some(0));
}

#[test]
fn teardown_without_matching_branch_removes_nothing() {
    let (asked, end) = drive(
        begin(Action::Remove, "/work/tool/.git/", false),
        vec![
            Reply::Names(names(&["feat-foo"])),
            Reply::Picked(names(&["feat-foo"])),
            Reply::Worktree(Some("/work/tool/feat-foo".to_string())),
            Reply::Names(names(&["main", "feat/bar", "feat/fo"])),
            Reply::Done,
        ],
    );
    assert_eq!(asked.len(), 4);
    assert_eq!(
        count(&asked, |r| matches!(
            r,
            Request::RemoveWorktree { .. }
                | Request::DeleteBranch { .. }
                | Request::DestroyWindow { .. }
        )),
        0
    );
    assert_eq!(end, Progress::Failed(Failure::NoMatchingBranch));
    assert_eq!(end.exit_status(), Some(1));
}

#[test]
fn teardown_stops_at_the_step_that_fails() {
    let (asked, end) = drive(
        begin(Action::Remove, "/work/tool/.git/", false),
        vec![
            Reply::Names(names(&["feat-foo"])),
            Reply::Picked(names(&["feat-foo"])),
            Reply::Worktree(Some("/work/tool/feat-foo".to_string())),
            Reply::Names(names(&["feat/foo"])),
            Reply::Done,
            failed("error: branch not found"),
            Reply::Done,
        ],
    );
    assert_eq!(asked.len(), 6);
    assert_eq!(count(&asked, |r| matches!(r, Request::DestroyWindow { .. })), 0);
    assert_eq!(
        end,
        Progress::Failed(Failure::ExternalCommandFailed("error: branch not found".to_string()))
    );
}

#[test]
fn matching_branch_is_found_by_key() {
    let branches = names(&["main", "feat/foo", "feat-foo"]);
    assert_eq!(find_matching_branch(&branches, "feat-foo"), Some("feat/foo".to_string()));
    assert_eq!(find_matching_branch(&branches, "main"), Some("main".to_string()));
}

#[test]
fn matching_branch_is_the_first_of_several() {
    assert_eq!(
        find_matching_branch(&names(&["feat-foo", "feat/foo"]), "feat-foo"),
        Some("feat-foo".to_string())
    );
    assert_eq!(
        find_matching_branch(&names(&["x", "feat.foo", "feat/foo", "featfoo"]), "feat-foo"),
        Some("feat.foo".to_string())
    );
}

#[test]
fn matching_branch_may_be_missing() {
    assert_eq!(find_matching_branch(&names(&["main", "feat/bar"]), "feat-foo"), None);
    assert_eq!(find_matching_branch(&names(&[]), "feat-foo"), None);
}

#[test]
fn teardown_steps_are_three() {
    assert_eq!(
        teardown("feat-foo".to_string(), "feat/foo".to_string()),
        vec![
            Request::RemoveWorktree { name: "feat-foo".to_string() },
            Request::DeleteBranch { name: "feat/foo".to_string() },
            Request::DestroyWindow { label: "feat-foo".to_string() },
        ]
    );
}

#[test]
fn switch_goes_to_the_window_of_the_picked_worktree() {
    let (asked, end) = drive(
        begin(Action::Switch, "/work/tool/.git/", false),
        vec![
            Reply::Names(names(&["feat-foo", "main"])),
            Reply::Picked(names(&["main"])),
            Reply::Worktree(Some("/work/tool/main".to_string())),
            Reply::Names(names(&["feat-foo"])),
            Reply::Done,
        ],
    );
    assert_eq!(
        asked,
        vec![
            Request::ListWorktrees,
            Request::Choose(Selection { candidates: names(&["feat-foo", "main"]), multi: false }),
            find_worktree("main"),
            Request::ListWindows,
            Request::CreateWindow {
                label: "main".to_string(),
                directory: "/work/tool/main".to_string()
            },
        ]
    );
    assert_eq!(end, Progress::Finished);
}

#[test]
fn switch_without_worktrees_is_an_error() {
    let (asked, end) =
        drive(begin(Action::Switch, "/work/tool/.git/", false), vec![Reply::Names(vec![])]);
    assert_eq!(asked, vec![Request::ListWorktrees]);
    assert_eq!(end, Progress::Failed(Failure::NoSuchWorktree));
    assert_eq!(end.exit_status(), Some(1));
}

#[test]
fn switch_to_a_worktree_that_is_gone_is_an_error() {
    let (asked, end) = drive(
        begin(Action::Switch, "/work/tool/.git/", false),
        vec![
            Reply::Names(names(&["feat-foo"])),
            Reply::Picked(names(&["feat-foo"])),
            Reply::Worktree(None),
        ],
    );
    assert_eq!(count(&asked, |r| matches!(r, Request::CreateWorktree { .. })), 0);
    assert_eq!(end, Progress::Failed(Failure::NoSuchWorktree));
}

#[test]
fn switch_aborted_is_selection_aborted() {
    let (_, end) = drive(
        begin(Action::Switch, "/work/tool/.git/", false),
        vec![Reply::Names(names(&["feat-foo"])), Reply::Aborted],
    );
    assert_eq!(end, Progress::Failed(Failure::SelectionAborted));
}

fn backport(name: &str, to_hash: Option<&str>) -> Progress {
    let command = BackportCommand {
        branch_to_create: name.to_string(),
        from_hash: "abc123".to_string(),
        to_hash: to_hash.map(|h| h.to_string()),
    };
    begin(Action::Backport(command), "/work/tool/.git/", false)
}

#[test]
fn backport_offers_the_release_branches() {
    let (asked, _) = drive(
        backport("ah/fix", None),
        vec![Reply::Names(names(&["origin/main", "origin/release/1.2", "origin/release/2.0"]))],
    );
    assert_eq!(
        asked,
        vec![
            Request::ListBranches { scope: Scope::Remote },
            Request::Choose(Selection {
                candidates: names(&["origin/release/1.2", "origin/release/2.0"]),
                multi: true
            }),
        ]
    );
}

#[test]
fn backport_runs_its_steps_for_each_release() {
    let mut replies = vec![
        Reply::Names(names(&["origin/release/1.2", "origin/release/2.0"])),
        Reply::Picked(names(&["origin/release/2.0", "origin/release/1.2"])),
    ];
    replies.extend(vec![Reply::Done; 12]);
    let (asked, end) = drive(backport("ah/fix", Some("def456")), replies);
    let replay = Request::Replay {
        from_hash: "abc123".to_string(),
        to_hash: Some("def456".to_string()),
    };
    assert_eq!(
        asked[2..],
        [
            Request::FetchBranch { name: "release/2.0".to_string() },
            Request::SetUpstream {
                local: "release/2.0".to_string(),
                remote: "origin/release/2.0".to_string()
            },
            Request::Checkout { branch: "release/2.0".to_string() },
            Request::CreateBranch { name: "ah/2.0-fix".to_string(), at: None },
            Request::Checkout { branch: "ah/2.0-fix".to_string() },
            replay.clone(),
            Request::FetchBranch { name: "release/1.2".to_string() },
            Request::SetUpstream {
                local: "release/1.2".to_string(),
                remote: "origin/release/1.2".to_string()
            },
            Request::Checkout { branch: "release/1.2".to_string() },
            Request::CreateBranch { name: "ah/1.2-fix".to_string(), at: None },
            Request::Checkout { branch: "ah/1.2-fix".to_string() },
            replay,
        ]
    );
    assert_eq!(end, Progress::Finished);
}

#[test]
fn backport_stops_where_a_replay_fails() {
    let mut replies = vec![
        Reply::Names(names(&["origin/release/1.2", "origin/release/2.0"])),
        Reply::Picked(names(&["origin/release/1.2", "origin/release/2.0"])),
    ];
    replies.extend(vec![Reply::Done; 5]);
    replies.push(failed("error: could not apply abc123"));
    replies.push(Reply::Done);
    let (asked, end) = drive(backport("ah/fix", None), replies);
    assert_eq!(asked.len(), 8);
    assert_eq!(
        end,
        Progress::Failed(Failure::ExternalCommandFailed(
            "error: could not apply abc123".to_string()
        ))
    );
}

#[test]
fn backport_reports_a_branch_it_cannot_create() {
    let mut replies = vec![
        Reply::Names(names(&["origin/release/1.2"])),
        Reply::Picked(names(&["origin/release/1.2"])),
    ];
    replies.extend(vec![Reply::Done; 3]);
    replies.push(failed("fatal: a branch named 'ah/1.2-fix' already exists"));
    let (_, end) = drive(backport("ah/fix", None), replies);
    assert_eq!(
        end,
        Progress::Failed(Failure::BranchCreateFailed(
            "fatal: a branch named 'ah/1.2-fix' already exists".to_string()
        ))
    );
}

#[test]
fn backport_needs_a_name_of_two_segments() {
    let start = backport("fix", None);
    assert_eq!(start, Progress::Failed(Failure::MalformedBranchName("fix".to_string())));
    assert_eq!(start.exit_status(), Some(1));
}

#[test]
fn backport_touches_nothing_where_a_release_cannot_be_named() {
    let (asked, end) = drive(
        backport("ah/fix", None),
        vec![
            Reply::Names(names(&["origin/release/1.2", "origin/release-x"])),
            Reply::Picked(names(&["origin/release/1.2", "origin/release-x"])),
            Reply::Done,
        ],
    );
    assert_eq!(asked.len(), 2);
    assert_eq!(
        end,
        Progress::Failed(Failure::MalformedBranchName("origin/release-x".to_string()))
    );
}

#[test]
fn backport_aborted_is_selection_aborted() {
    let (_, end) = drive(
        backport("ah/fix", None),
        vec![Reply::Names(names(&["origin/release/1.2"])), Reply::Aborted],
    );
    assert_eq!(end, Progress::Failed(Failure::SelectionAborted));
}

#[test]
fn a_reply_that_does_not_fit_ends_the_action() {
    let (_, end) = drive(create(Some("feat/foo"), false), vec![Reply::Done]);
    assert_eq!(end, Progress::Failed(Failure::UnexpectedReply));
    let (_, end) = drive(
        begin(Action::Switch, "/work/tool/.git/", false),
        vec![Reply::Found(true)],
    );
    assert_eq!(end, Progress::Failed(Failure::UnexpectedReply));
}

#[test]
fn a_pending_request_has_no_exit_status() {
    assert_eq!(create(Some("feat/foo"), false).exit_status(), None);
}

#[test]
fn picked_branch_keeps_what_follows_the_remote() {
    let (asked, _) = drive(
        create(None, false),
        vec![
            Reply::Names(names(&["origin/fix/origin/bug"])),
            Reply::Picked(names(&["origin/fix/origin/bug"])),
            Reply::Found(false),
            Reply::Done,
            Reply::Found(true),
            Reply::Done,
            Reply::Done,
        ],
    );
    assert_eq!(
        asked[2..],
        [
            find_local("fix/origin/bug"),
            prune(),
            find_remote("origin/fix/origin/bug"),
            Request::FetchBranch { name: "fix/origin/bug".to_string() },
            Request::SetUpstream {
                local: "fix/origin/bug".to_string(),
                remote: "origin/fix/origin/bug".to_string()
            },
            find_worktree("fix-origin-bug"),
        ]
    );
}

#[test]
fn worktree_is_created_under_the_root_seen_from_a_linked_worktree() {
    let command = CreateCommand { branch_to_create: Some("feat/foo".to_string()), stash: false };
    let start = begin(Action::Create(command), "/work/tool/.git/worktrees/main/", true);
    let (asked, _) = drive(start, vec![Reply::Found(true), Reply::Worktree(None)]);
    assert_eq!(
        asked[2],
        Request::CreateWorktree {
            path: "/work/tool/feat-foo".to_string(),
            branch: "feat/foo".to_string()
        }
    );
}

#[test]
fn missing_worktree_without_root_is_an_error() {
    let command = CreateCommand { branch_to_create: Some("feat/foo".to_string()), stash: false };
    let start = begin(Action::Create(command), ".git", false);
    let (asked, end) = drive(start, vec![Reply::Found(true), Reply::Worktree(None), Reply::Done]);
    assert_eq!(asked, vec![find_local("feat/foo"), find_worktree("feat-foo")]);
    assert_eq!(end, Progress::Failed(Failure::NoRepositoryRoot));
    assert_eq!(end.exit_status(), Some(1));
}

#[test]
fn existing_worktree_needs_no_root() {
    let command = CreateCommand { branch_to_create: Some("feat/foo".to_string()), stash: false };
    let start = begin(Action::Create(command), ".git", false);
    let (_, end) = drive(
        start,
        vec![
            Reply::Found(true),
            Reply::Worktree(Some("/elsewhere/feat-foo".to_string())),
            Reply::Names(names(&["feat-foo"])),
            Reply::Done,
        ],
    );
    assert_eq!(end, Progress::Finished);
}

#[test]
fn other_actions_need_no_root() {
    let (_, end) = drive(begin(Action::Switch, "", false), vec![Reply::Names(vec![])]);
    assert_eq!(end, Progress::Failed(Failure::NoSuchWorktree));
}

#[test]
fn backport_fetches_a_release_under_its_own_name() {
    let mut replies = vec![
        Reply::Names(names(&["origin/release/origin/1"])),
        Reply::Picked(names(&["origin/release/origin/1"])),
    ];
    replies.push(Reply::Done);
    let (asked, _) = drive(backport("ah/fix", None), replies);
    assert_eq!(asked[2], Request::FetchBranch { name: "release/origin/1".to_string() });
    assert_eq!(
        asked[3],
        Request::SetUpstream {
            local: "release/origin/1".to_string(),
            remote: "origin/release/origin/1".to_string()
        }
    );
}
