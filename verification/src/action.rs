//! What the user asks for.

use vstd::prelude::*;

verus! {

/// One of the four things the tool does.
#[derive(Debug, PartialEq, Eq)]
pub enum Action {
    /// Open the worktree of a branch, creating branch and worktree as needed.
    Create(CreateCommand),
    /// Remove a worktree with its branch and its window.
    Remove,
    /// Go to the window of an existing worktree.
    Switch,
    /// Copy commits onto new branches cut from release branches.
    Backport(BackportCommand),
}

/// The branch to open a worktree for.
#[derive(Debug, PartialEq, Eq)]
pub struct CreateCommand {
    /// The branch; where absent, the user picks a remote branch.
    pub branch_to_create: Option<String>,
    /// Whether to stash uncommitted changes before a new branch is created.
    pub stash: bool,
}

/// The commits to copy and the name to derive the new branches from.
#[derive(Debug, PartialEq, Eq)]
pub struct BackportCommand {
    /// `<initials>/<suffix>`: the parts of the new branches' names around the
    /// release.
    pub branch_to_create: String,
    /// The commit to copy, or the one before the first to copy where
    /// `to_hash` is given.
    pub from_hash: String,
    /// The last commit to copy.
    pub to_hash: Option<String>,
}

/// An action as text.
pub enum ActionView {
    Create(CreateCommandView),
    Remove,
    Switch,
    Backport(BackportCommandView),
}

/// A create command as text.
pub struct CreateCommandView {
    pub branch_to_create: Option<Seq<char>>,
    pub stash: bool,
}

/// A backport command as text.
pub struct BackportCommandView {
    pub branch_to_create: Seq<char>,
    pub from_hash: Seq<char>,
    pub to_hash: Option<Seq<char>>,
}

impl View for CreateCommand {
    type V = CreateCommandView;

    open spec fn view(&self) -> CreateCommandView {
        CreateCommandView {
            branch_to_create: self.branch_to_create.deep_view(),
            stash: self.stash,
        }
    }
}

impl View for BackportCommand {
    type V = BackportCommandView;

    open spec fn view(&self) -> BackportCommandView {
        BackportCommandView {
            branch_to_create: self.branch_to_create@,
            from_hash: self.from_hash@,
            to_hash: self.to_hash.deep_view(),
        }
    }
}

impl View for Action {
    type V = ActionView;

    open spec fn view(&self) -> ActionView {
        match self {
            Action::Create(c) => ActionView::Create(c@),
            Action::Remove => ActionView::Remove,
            Action::Switch => ActionView::Switch,
            Action::Backport(b) => ActionView::Backport(b@),
        }
    }
}

} // verus!
