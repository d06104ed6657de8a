use twt::action::BackportCommand;
use twt::backport::{backport_spec, branch_steps, new_branch_name, nth_segment, plan, BackportSpec};
use twt::requests::{Failure, Request};

fn names(items: &[&str]) -> Vec<String> {
    items.iter().map(|s| s.to_string()).collect()
}

fn spec(to_hash: Option<&str>) -> BackportSpec {
    BackportSpec {
        initials: "ah".to_string(),
        release_token_index: 1,
        suffix: "fix-login".to_string(),
        from_hash: "abc123".to_string(),
        to_hash: to_hash.map(|h| h.to_string()),
    }
}

fn steps_for(release: &str, local: &str, target: &str, to_hash: Option<&str>) -> Vec<Request> {
    vec![
        Request::FetchBranch { name: local.to_string() },
        Request::SetUpstream { local: local.to_string(), remote: release.to_string() },
        Request::Checkout { branch: local.to_string() },
        Request::CreateBranch { name: target.to_string(), at: None },
        Request::Checkout { branch: target.to_string() },
        Request::Replay {
            from_hash: "abc123".to_string(),
            to_hash: to_hash.map(|h| h.to_string()),
        },
    ]
}

#[test]
fn segments_are_counted_from_zero() {
    assert_eq!(nth_segment("release/1.2", 0), Some("release".to_string()));
    assert_eq!(nth_segment("release/1.2", 1), Some("1.2".to_string()));
    assert_eq!(nth_segment("a/b/c", 2), Some("c".to_string()));
    assert_eq!(nth_segment("a//c", 1), Some("".to_string()));
}

#[test]
fn segments_beyond_the_last_are_none() {
    assert_eq!(nth_segment("release", 1), None);
    assert_eq!(nth_segment("release/1.2", 2), None);
    assert_eq!(nth_segment("", 1), None);
    assert_eq!(nth_segment("", 0), Some("".to_string()));
}

#[test]
fn command_is_read_as_initials_and_suffix() {
    let command = BackportCommand {
        branch_to_create: "ah/fix-login".to_string(),
        from_hash: "abc123".to_string(),
        to_hash: Some("def456".to_string()),
    };
    assert_eq!(backport_spec(command), Some(spec(Some("def456"))));
}

#[test]
fn command_with_more_segments_takes_the_first_two() {
    let command = BackportCommand {
        branch_to_create: "ah/fix-login/extra".to_string(),
        from_hash: "abc123".to_string(),
        to_hash: None,
    };
    assert_eq!(backport_spec(command), Some(spec(None)));
}

#[test]
fn command_without_a_second_segment_has_no_description() {
    let command = BackportCommand {
        branch_to_create: "fix-login".to_string(),
        from_hash: "abc123".to_string(),
        to_hash: None,
    };
    assert_eq!(backport_spec(command), None);
}

#[test]
fn new_branch_is_named_after_the_release() {
    assert_eq!(new_branch_name(&spec(None), "release/1.2"), Some("ah/1.2-fix-login".to_string()));
    assert_eq!(new_branch_name(&spec(None), "release/2.0/lts"), Some("ah/2.0-fix-login".to_string()));
}

#[test]
fn new_branch_takes_the_segment_pointed_at() {
    let mut third = spec(None);
    third.release_token_index = 2;
    assert_eq!(new_branch_name(&third, "release/2.0/lts"), Some("ah/lts-fix-login".to_string()));
    assert_eq!(new_branch_name(&third, "release/2.0"), None);
}

#[test]
fn new_branch_needs_the_release_segment() {
    assert_eq!(new_branch_name(&spec(None), "release-1.2"), None);
    assert_eq!(new_branch_name(&spec(None), ""), None);
}

#[test]
fn steps_for_one_release_branch() {
    assert_eq!(
        branch_steps(&spec(None), "origin/release/1.2"),
        Some(steps_for("origin/release/1.2", "release/1.2", "ah/1.2-fix-login", None))
    );
}

#[test]
fn steps_copy_a_range_where_there_is_an_end() {
    let steps = branch_steps(&spec(Some("def456")), "origin/release/1.2").unwrap();
    assert_eq!(
        steps[5],
        Request::Replay { from_hash: "abc123".to_string(), to_hash: Some("def456".to_string()) }
    );
}

#[test]
fn no_steps_for_a_branch_without_release_segment() {
    assert_eq!(branch_steps(&spec(None), "origin/release-1.2"), None);
}

#[test]
fn plan_takes_the_branches_in_order() {
    let mut expected = steps_for("origin/release/1.2", "release/1.2", "ah/1.2-fix-login", None);
    expected.extend(steps_for("origin/release/2.0", "release/2.0", "ah/2.0-fix-login", None));
    assert_eq!(
        plan(&names(&["origin/release/1.2", "origin/release/2.0"]), &spec(None)),
        Ok(expected)
    );
}

#[test]
fn plan_of_no_branches_is_empty() {
    assert_eq!(plan(&names(&[]), &spec(None)), Ok(vec![]));
}

#[test]
fn plan_reports_the_first_branch_it_cannot_name() {
    assert_eq!(
        plan(
            &names(&["origin/release/1.2", "origin/release-x", "origin/release/2.0", "origin/y"]),
            &spec(None)
        ),
        Err(Failure::MalformedBranchName("origin/release-x".to_string()))
    );
}
