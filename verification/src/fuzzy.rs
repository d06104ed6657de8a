//! What is put to the interactive picker.

use vstd::prelude::*;
use crate::gitc::push_arg;
use crate::text::{contains, contains_text, join, join_with};

verus! {

/// A choice to put to the user: the candidates, and whether several of them
/// may be picked.
#[derive(Debug, Clone, PartialEq, Eq)]
pub struct Selection {
    pub candidates: Vec<String>,
    pub multi: bool,
}

/// A selection as text.
pub struct SelectionView {
    pub candidates: Seq<Seq<char>>,
    pub multi: bool,
}

impl View for Selection {
    type V = SelectionView;

    open spec fn view(&self) -> SelectionView {
        SelectionView { candidates: self.candidates.deep_view(), multi: self.multi }
    }
}

/// The names that hold `filter`, in their order; all of them where there is
/// no filter.
pub open spec fn offered(names: Seq<Seq<char>>, filter: Option<Seq<char>>) -> Seq<Seq<char>> {
    match filter {
        Some(wanted) => names.filter(|name: Seq<char>| contains(name, wanted)),
        None => names,
    }
}

/// The choice among remote branches: those whose name holds `filter`, of
/// which several may be picked.
pub fn select_remote_branch(branches: &Vec<String>, filter: Option<String>) -> (selection:
    Selection)
    ensures
        selection@ == (SelectionView {
            candidates: offered(branches.deep_view(), filter.deep_view()),
            multi: true,
        }),
{
    let mut candidates: Vec<String> = Vec::new();
    let mut i: usize = 0;
    while i < branches.len()
        invariant
            i <= branches.len(),
            candidates.deep_view() == offered(
                branches.deep_view().take(i as int),
                filter.deep_view(),
            ),
        decreases branches.len() - i,
    {
        proof {
            branches.deep_view().lemma_take_succ_push(i as int);
            if let Some(wanted) = filter.deep_view() {
                branches.deep_view().take(i as int).lemma_filter_push(
                    branches[i as int]@,
                    |name: Seq<char>| contains(name, wanted),
                );
            }
        }
        let keep = match &filter {
            Some(wanted) => contains_text(branches[i].as_str(), wanted.as_str()),
            None => true,
        };
        if keep {
            push_arg(&mut candidates, branches[i].as_str());
        }
        i += 1;
    }
    proof {
        assert(branches.deep_view().take(branches.len() as int) =~= branches.deep_view());
    }
    Selection { candidates, multi: true }
}

/// The choice among worktrees: all of them, of which one is picked.
pub fn select_worktree(worktrees: Vec<String>) -> (selection: Selection)
    ensures
        selection@ == (SelectionView { candidates: worktrees.deep_view(), multi: false }),
{
    Selection { candidates: worktrees, multi: false }
}

/// The text the picker reads its candidates from: one on each line.
pub fn picker_input(selection: &Selection) -> (input: String)
    ensures
        input@ == join(selection@.candidates, '\n'),
{
    join_with(&selection.candidates, '\n')
}

/// How the picker is laid out. The layout is fixed: the picker fills the
/// terminal and lists its candidates from the top down.
#[derive(Debug, PartialEq, Eq)]
pub struct Layout {
    pub height: String,
    pub reverse: bool,
}

/// The picker's layout.
pub fn layout() -> (l: Layout)
    ensures
        l.height@ == "100%"@,
        l.reverse,
{
    Layout { height: "100%".to_owned(), reverse: true }
}

} // verus!
