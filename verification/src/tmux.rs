//! The command lines that drive the terminal multiplexer's windows.

use vstd::prelude::*;
use crate::gitc::{command, push_arg, CommandLine, CommandLineView};
use crate::text::{split, split_at};

verus! {

/// `tmux` started with `args`.
pub open spec fn tmux(args: Seq<Seq<char>>) -> CommandLineView {
    CommandLineView { program: "tmux"@, args }
}

/// `tmux list-windows -F #{window_name}`: prints the label of each window of
/// the session on a line of its own.
pub fn list_windows() -> (cmd: CommandLine)
    ensures
        cmd@ == tmux(seq!["list-windows"@, "-F"@, "#{window_name}"@]),
{
    let mut args: Vec<String> = Vec::new();
    push_arg(&mut args, "list-windows");
    push_arg(&mut args, "-F");
    push_arg(&mut args, "#{window_name}");
    assert(args.deep_view() =~= seq!["list-windows"@, "-F"@, "#{window_name}"@]);
    command("tmux", args)
}

/// The labels that a listing holds: its lines, the empty ones left out.
pub open spec fn labels(listing: Seq<char>) -> Seq<Seq<char>> {
    split(listing, '\n').filter(|line: Seq<char>| line.len() > 0)
}

/// Reads the window labels off what `list_windows` printed.
pub fn window_labels(listing: &str) -> (found: Vec<String>)
    ensures
        found.deep_view() == labels(listing@),
{
    let lines = split_at(listing, '\n');
    let ghost keep = |line: Seq<char>| line.len() > 0;
    let mut found: Vec<String> = Vec::new();
    let mut i: usize = 0;
    while i < lines.len()
        invariant
            i <= lines.len(),
            lines.deep_view() == split(listing@, '\n'),
            keep == (|line: Seq<char>| line.len() > 0),
            found.deep_view() == lines.deep_view().take(i as int).filter(keep),
        decreases lines.len() - i,
    {
        proof {
            lines.deep_view().lemma_take_succ_push(i as int);
            lines.deep_view().take(i as int).lemma_filter_push(lines[i as int]@, keep);
        }
        if lines[i].as_str().unicode_len() > 0 {
            push_arg(&mut found, lines[i].as_str());
        }
        i += 1;
    }
    proof {
        assert(lines.deep_view().take(lines.len() as int) =~= lines.deep_view());
    }
    found
}

/// `tmux select-window -t <window_name>`
pub fn select_window(window_name: &str) -> (cmd: CommandLine)
    ensures
        cmd@ == tmux(seq!["select-window"@, "-t"@, window_name@]),
{
    let mut args: Vec<String> = Vec::new();
    push_arg(&mut args, "select-window");
    push_arg(&mut args, "-t");
    push_arg(&mut args, window_name);
    assert(args.deep_view() =~= seq!["select-window"@, "-t"@, window_name@]);
    command("tmux", args)
}

/// `tmux neww -n <window_name> -c <path>`: a new window with that label,
/// started in `path`.
pub fn new_window(window_name: &str, path: &str) -> (cmd: CommandLine)
    ensures
        cmd@ == tmux(seq!["neww"@, "-n"@, window_name@, "-c"@, path@]),
{
    let mut args: Vec<String> = Vec::new();
    push_arg(&mut args, "neww");
    push_arg(&mut args, "-n");
    push_arg(&mut args, window_name);
    push_arg(&mut args, "-c");
    push_arg(&mut args, path);
    assert(args.deep_view() =~= seq!["neww"@, "-n"@, window_name@, "-c"@, path@]);
    command("tmux", args)
}

/// Whether `label` is one of `labels`.
pub fn is_listed(labels: &Vec<String>, label: &str) -> (listed: bool)
    ensures
        listed == labels.deep_view().contains(label@),
{
    let wanted = label.to_owned();
    let mut i: usize = 0;
    while i < labels.len()
        invariant
            i <= labels.len(),
            wanted@ == label@,
            forall|j: int| 0 <= j < i ==> labels.deep_view()[j] != label@,
        decreases labels.len() - i,
    {
        if labels[i] == wanted {
            assert(labels.deep_view()[i as int] == label@);
            return true;
        }
        i += 1;
    }
    false
}

/// The command that brings the window `window_name` to the front: it selects
/// the window where `windows` lists it, and opens it at `path` where not.
pub fn change_window(window_name: &str, path: &str, windows: &Vec<String>) -> (cmd: CommandLine)
    ensures
        cmd@ == if windows.deep_view().contains(window_name@) {
            tmux(seq!["select-window"@, "-t"@, window_name@])
        } else {
            tmux(seq!["neww"@, "-n"@, window_name@, "-c"@, path@])
        },
{
    if is_listed(windows, window_name) {
        select_window(window_name)
    } else {
        new_window(window_name, path)
    }
}

/// `tmux kill-window -t <window_name>`
pub fn remove_window(window_name: &str) -> (cmd: CommandLine)
    ensures
        cmd@ == tmux(seq!["kill-window"@, "-t"@, window_name@]),
{
    let mut args: Vec<String> = Vec::new();
    push_arg(&mut args, "kill-window");
    push_arg(&mut args, "-t");
    push_arg(&mut args, window_name);
    assert(args.deep_view() =~= seq!["kill-window"@, "-t"@, window_name@]);
    command("tmux", args)
}

} // verus!
