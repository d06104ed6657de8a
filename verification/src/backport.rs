//! Backports: the branches to cut from release branches and the commits to
//! copy onto them.
//!
//! A backport is planned as a whole before any of it is carried out, and
//! carried out step by step. A step that fails, such as a copy that meets a
//! conflict, ends the backport there: the release branches that follow are
//! not attempted, and what was done is left as it is.

use vstd::prelude::*;
use crate::action::{BackportCommand, BackportCommandView};
use crate::names::local_name;
use crate::requests::{create_local_from_remote, Failure, FailureView, Request, RequestView};
use crate::text::{split, split_at};

verus! {

impl DeepView for Request {
    type V = RequestView;

    open spec fn deep_view(&self) -> RequestView {
        self@
    }
}

/// What a backport copies and how it names the branches it makes.
#[derive(Debug, PartialEq, Eq)]
pub struct BackportSpec {
    /// What the new branches' names begin with.
    pub initials: String,
    /// Which segment of a release branch's name goes into the new name.
    pub release_token_index: usize,
    /// What the new branches' names end in.
    pub suffix: String,
    /// The commit to copy, or the one before the first to copy.
    pub from_hash: String,
    /// The last commit to copy, where a range is copied.
    pub to_hash: Option<String>,
}

/// A backport's description as text.
pub struct BackportSpecView {
    pub initials: Seq<char>,
    pub release_token_index: int,
    pub suffix: Seq<char>,
    pub from_hash: Seq<char>,
    pub to_hash: Option<Seq<char>>,
}

impl View for BackportSpec {
    type V = BackportSpecView;

    open spec fn view(&self) -> BackportSpecView {
        BackportSpecView {
            initials: self.initials@,
            release_token_index: self.release_token_index as int,
            suffix: self.suffix@,
            from_hash: self.from_hash@,
            to_hash: self.to_hash.deep_view(),
        }
    }
}

/// The segment of `name` at `index`, counting from 0 the segments that `/`
/// separates.
pub open spec fn segment(name: Seq<char>, index: int) -> Option<Seq<char>> {
    let parts = split(name, '/');
    if 0 <= index < parts.len() {
        Some(parts[index])
    } else {
        None
    }
}

/// The segment of `name` at `index`, if `name` has that many segments.
pub fn nth_segment(name: &str, index: usize) -> (part: Option<String>)
    ensures
        part.deep_view() == segment(name@, index as int),
{
    let mut parts = split_at(name, '/');
    if index < parts.len() {
        Some(parts.swap_remove(index))
    } else {
        None
    }
}

/// What a backport command asks for: the name it gives is
/// `<initials>/<suffix>`, and the release is read off the second segment of
/// a release branch's name. None where the name has no second segment.
pub open spec fn described_by(command: BackportCommandView) -> Option<BackportSpecView> {
    match (segment(command.branch_to_create, 0), segment(command.branch_to_create, 1)) {
        (Some(initials), Some(suffix)) => Some(
            BackportSpecView {
                initials,
                release_token_index: 1,
                suffix,
                from_hash: command.from_hash,
                to_hash: command.to_hash,
            },
        ),
        _ => None,
    }
}

/// Reads a backport's description off the command.
pub fn backport_spec(command: BackportCommand) -> (spec: Option<BackportSpec>)
    ensures
        spec.is_some() == described_by(command@).is_some(),
        spec matches Some(s) ==> Some(s@) == described_by(command@),
{
    let initials = nth_segment(command.branch_to_create.as_str(), 0);
    let suffix = nth_segment(command.branch_to_create.as_str(), 1);
    match (initials, suffix) {
        (Some(initials), Some(suffix)) => Some(
            BackportSpec {
                initials,
                release_token_index: 1,
                suffix,
                from_hash: command.from_hash,
                to_hash: command.to_hash,
            },
        ),
        _ => None,
    }
}

/// The branch that a backport onto a release branch makes:
/// `<initials>/<release>-<suffix>`, where `<release>` is the segment of the
/// local release branch's name that the description points at. None where
/// the release branch's name has no such segment.
pub open spec fn new_branch(spec: BackportSpecView, local_release: Seq<char>) -> Option<Seq<char>> {
    match segment(local_release, spec.release_token_index) {
        Some(release) => Some(spec.initials + "/"@ + release + "-"@ + spec.suffix),
        None => None,
    }
}

/// The name of the branch that a backport onto `local_release` makes.
pub fn new_branch_name(spec: &BackportSpec, local_release: &str) -> (name: Option<String>)
    ensures
        name.deep_view() == new_branch(spec@, local_release@),
{
    match nth_segment(local_release, spec.release_token_index) {
        Some(release) => {
            let mut name = spec.initials.clone();
            name.append("/");
            name.append(release.as_str());
            name.append("-");
            name.append(spec.suffix.as_str());
            Some(name)
        },
        None => None,
    }
}

/// What a backport onto one remote release branch does, in order: fetch the
/// release branch into its local branch and make that track it, check it
/// out, cut the new branch where `HEAD` then is and check that out, and copy
/// the commits.
pub open spec fn steps(spec: BackportSpecView, release_branch: Seq<char>) -> Option<
    Seq<RequestView>,
> {
    let local = local_name(release_branch);
    match new_branch(spec, local) {
        Some(target) => Some(
            seq![
                RequestView::FetchBranch { name: local },
                RequestView::SetUpstream { local, remote: release_branch },
                RequestView::Checkout { branch: local },
                RequestView::CreateBranch { name: target, at: None },
                RequestView::Checkout { branch: target },
                RequestView::Replay { from_hash: spec.from_hash, to_hash: spec.to_hash },
            ],
        ),
        None => None,
    }
}

/// The requests that backport onto `release_branch`.
pub fn branch_steps(spec: &BackportSpec, release_branch: &str) -> (found: Option<Vec<Request>>)
    ensures
        found.is_some() == steps(spec@, release_branch@).is_some(),
        found matches Some(s) ==> Some(s.deep_view()) == steps(spec@, release_branch@),
{
    let release = create_local_from_remote(release_branch);
    match new_branch_name(spec, release.local_branch_name.as_str()) {
        Some(target) => {
            let mut found: Vec<Request> = Vec::new();
            found.push(release.fetch);
            found.push(release.track);
            found.push(Request::Checkout { branch: release.local_branch_name });
            found.push(Request::CreateBranch { name: target.clone(), at: None });
            found.push(Request::Checkout { branch: target });
            found.push(
                Request::Replay {
                    from_hash: spec.from_hash.clone(),
                    to_hash: spec.to_hash.clone(),
                },
            );
            Some(found)
        },
        None => None,
    }
}

/// The whole backport: the steps for each release branch, one branch after
/// the other in the order given. Where a release branch's name lacks the
/// segment that names the release, there is no plan, and the first such
/// branch is reported.
pub open spec fn planned(spec: BackportSpecView, release_branches: Seq<Seq<char>>) -> Result<
    Seq<RequestView>,
    FailureView,
>
    decreases release_branches.len(),
{
    if release_branches.len() == 0 {
        Ok(Seq::empty())
    } else {
        match planned(spec, release_branches.drop_last()) {
            Err(failure) => Err(failure),
            Ok(earlier) => match steps(spec, release_branches.last()) {
                Some(last) => Ok(earlier + last),
                None => Err(FailureView::MalformedBranchName(release_branches.last())),
            },
        }
    }
}

/// Plans a backport onto each of `release_branches`.
pub fn plan(release_branches: &Vec<String>, spec: &BackportSpec) -> (planned_steps: Result<
    Vec<Request>,
    Failure,
>)
    ensures
        match planned_steps {
            Ok(steps) => planned(spec@, release_branches.deep_view()) == Ok::<
                Seq<RequestView>,
                FailureView,
            >(steps.deep_view()),
            Err(failure) => planned(spec@, release_branches.deep_view()) == Err::<
                Seq<RequestView>,
                FailureView,
            >(failure@),
        },
{
    let mut all: Vec<Request> = Vec::new();
    let mut i: usize = 0;
    proof {
        assert(all.deep_view() =~= Seq::<RequestView>::empty());
    }
    while i < release_branches.len()
        invariant
            i <= release_branches.len(),
            planned(spec@, release_branches.deep_view().take(i as int)) == Ok::<
                Seq<RequestView>,
                FailureView,
            >(all.deep_view()),
        decreases release_branches.len() - i,
    {
        let ghost done = release_branches.deep_view().take(i as int);
        let ghost next = release_branches.deep_view().take(i + 1);
        proof {
            assert(next.drop_last() =~= done);
        }
        match branch_steps(spec, release_branches[i].as_str()) {
            Some(mut found) => {
                let ghost before = all.deep_view();
                let ghost added = found.deep_view();
                all.append(&mut found);
                proof {
                    assert(all.deep_view() =~= before + added);
                }
            },
            None => {
                proof {
                    lemma_planned_stays_failed(spec@, release_branches.deep_view(), i + 1);
                }
                return Err(Failure::MalformedBranchName(release_branches[i].clone()));
            },
        }
        i += 1;
    }
    proof {
        assert(release_branches.deep_view().take(release_branches.len() as int)
            =~= release_branches.deep_view());
    }
    Ok(all)
}

/// Once the branches up to some point have no plan, no longer list has one,
/// and the failure reported stays the same.
proof fn lemma_planned_stays_failed(spec: BackportSpecView, branches: Seq<Seq<char>>, n: int)
    requires
        0 <= n <= branches.len(),
        planned(spec, branches.take(n)) is Err,
    ensures
        planned(spec, branches) == planned(spec, branches.take(n)),
    decreases branches.len(),
{
    if n == branches.len() {
        assert(branches.take(n) =~= branches);
    } else {
        assert(branches.drop_last().take(n) =~= branches.take(n));
        lemma_planned_stays_failed(spec, branches.drop_last(), n);
    }
}

} // verus!
