//! Names derived from branch names: comparison keys, worktree names and paths.

use vstd::prelude::*;
use crate::text::{chars_of, prefix_comes_off_again, push_char, strip_prefix, without_prefix};

verus! {

/// A letter of the basic Latin alphabet, a decimal digit, or the underscore.
pub open spec fn ascii_word(c: char) -> bool {
    ||| 'a' <= c <= 'z'
    ||| 'A' <= c <= 'Z'
    ||| '0' <= c <= '9'
    ||| c == '_'
}

/// What `regex_syntax::is_word_character` answers for `c`: whether `c` is a
/// word character in the sense of the regex class `\w`.
pub uninterp spec fn word_character(c: char) -> bool;

/// Whether `c` survives normalization.
///
/// Below U+0080 these are the letters, digits and underscore of ASCII;
/// above, whatever the regex word class holds.
pub open spec fn is_word(c: char) -> bool {
    if c <= '\x7f' {
        ascii_word(c)
    } else {
        word_character(c)
    }
}

/// The comparison key of a name: its word characters, in their order.
pub open spec fn normalized(raw: Seq<char>) -> Seq<char> {
    raw.filter(|c: char| is_word(c))
}

/// Asks the regex word class about one character.
///
/// Trusted: calls `regex_syntax::is_word_character`. The contract names its
/// answer and adds what its source shows of ASCII: the function accepts the
/// bytes `[_0-9a-zA-Z]` outright, and the table it searches for the rest
/// holds no other character below U+0080. With the `unicode-perl` feature
/// enabled, as it is here, the function does not panic.
#[verifier::external_body]
fn is_word_character(c: char) -> (b: bool)
    ensures
        b == word_character(c),
        c <= '\x7f' ==> b == ascii_word(c),
{
    regex_syntax::is_word_character(c)
}

/// The characters of `raw` whose flag in `keep` is set, in their order. A
/// character without a flag is left out.
pub open spec fn retained(raw: Seq<char>, keep: Seq<bool>) -> Seq<char>
    decreases raw.len(),
{
    if raw.len() == 0 {
        raw
    } else {
        let before = retained(raw.drop_last(), keep);
        if raw.len() <= keep.len() && keep[raw.len() - 1] {
            before.push(raw.last())
        } else {
            before
        }
    }
}

/// For each character of `raw`, in order, whether it is a word character.
pub fn word_flags(raw: &str) -> (flags: Vec<bool>)
    ensures
        flags@ == raw@.map_values(|c: char| is_word(c)),
{
    broadcast use vstd::string::group_string_axioms;

    let mut flags: Vec<bool> = Vec::new();
    for c in it: raw.chars()
        invariant
            it.seq() == raw@,
            flags@ == raw@.take(it.index() as int).map_values(|c: char| is_word(c)),
    {
        flags.push(is_word_character(c));
    }
    flags
}

/// Keeps the characters of `raw` whose flag in `keep` is set, in their
/// order, and leaves the others out.
pub fn retain(raw: &str, keep: &Vec<bool>) -> (kept: String)
    ensures
        kept@ == retained(raw@, keep@),
{
    let chars = chars_of(raw);
    let mut kept = String::new();
    let mut i: usize = 0;
    while i < chars.len()
        invariant
            i <= chars.len(),
            chars@ == raw@,
            kept@ == retained(raw@.take(i as int), keep@),
        decreases chars.len() - i,
    {
        proof {
            assert(raw@.take(i + 1).drop_last() =~= raw@.take(i as int));
        }
        if i < keep.len() && keep[i] {
            push_char(&mut kept, chars[i]);
        }
        i += 1;
    }
    proof {
        assert(raw@.take(raw@.len() as int) =~= raw@);
    }
    kept
}

/// Keeping the characters flagged as word characters is filtering by the
/// word class.
proof fn lemma_retained_words(raw: Seq<char>, n: int)
    requires
        0 <= n <= raw.len(),
    ensures
        retained(raw.take(n), raw.map_values(|c: char| is_word(c))) == normalized(raw.take(n)),
    decreases n,
{
    if n > 0 {
        lemma_retained_words(raw, n - 1);
        assert(raw.take(n).drop_last() =~= raw.take(n - 1));
        raw.lemma_take_succ_push(n - 1);
        raw.take(n - 1).lemma_filter_push(raw[n - 1], |c: char| is_word(c));
    }
}

/// Removes every character that is not a letter, a digit or an underscore,
/// keeping the others in their order.
pub fn normalize(raw: &str) -> (key: String)
    ensures
        key@ == normalized(raw@),
{
    let flags = word_flags(raw);
    proof {
        lemma_retained_words(raw@, raw@.len() as int);
        assert(raw@.take(raw@.len() as int) =~= raw@);
    }
    retain(raw, &flags)
}

/// The worktree name of a branch: the branch name with `-` for every `/`.
pub open spec fn worktree_name(branch: Seq<char>) -> Seq<char> {
    branch.map_values(|c: char| if c == '/' { '-' } else { c })
}

/// Replaces every `/` of a branch name by `-`.
pub fn derive_worktree_name(branch_name: &str) -> (name: String)
    ensures
        name@ == worktree_name(branch_name@),
{
    broadcast use vstd::string::group_string_axioms;

    let mut name = String::new();
    for c in it: branch_name.chars()
        invariant
            it.seq() == branch_name@,
            name@ == worktree_name(branch_name@.take(it.index() as int)),
    {
        if c == '/' {
            push_char(&mut name, '-');
        } else {
            push_char(&mut name, c);
        }
    }
    name
}

/// Where a worktree lives: its name appended to the repository's root directory.
pub fn derive_path(repo_root: &str, worktree_name: &str) -> (path: String)
    ensures
        path@ == repo_root@ + worktree_name@,
{
    let mut path = repo_root.to_owned();
    path.append(worktree_name);
    path
}

/// The longest prefix of `path` that ends in `/`, if `path` holds a `/`.
pub open spec fn through_last_slash(path: Seq<char>) -> Option<Seq<char>>
    decreases path.len(),
{
    if path.len() == 0 {
        None
    } else if path.last() == '/' {
        Some(path)
    } else {
        through_last_slash(path.drop_last())
    }
}

/// `path` without one closing `/`.
pub open spec fn without_closing_slash(path: Seq<char>) -> Seq<char> {
    if path.len() > 0 && path.last() == '/' {
        path.drop_last()
    } else {
        path
    }
}

/// The directory that holds `dir`, with its closing `/`; none where `dir`
/// names no parent.
pub open spec fn parent_directory(dir: Seq<char>) -> Option<Seq<char>> {
    through_last_slash(without_closing_slash(dir))
}

/// The directory that holds `dir`, written with a closing `/`.
///
/// `None` where the path names no parent: it holds no `/` before its last
/// component.
pub fn parent_dir(dir: &str) -> (parent: Option<String>)
    ensures
        parent.deep_view() == parent_directory(dir@),
{
    let chars = chars_of(dir);
    let mut end: usize = chars.len();
    if end > 0 && chars[end - 1] == '/' {
        end -= 1;
    }
    proof {
        assert(without_closing_slash(dir@) =~= chars@.take(end as int));
    }
    while end > 0 && chars[end - 1] != '/'
        invariant
            end <= chars.len(),
            chars@ == dir@,
            parent_directory(dir@) == through_last_slash(chars@.take(end as int)),
        decreases end,
    {
        proof {
            assert(chars@.take(end as int).drop_last() =~= chars@.take(end - 1));
        }
        end -= 1;
    }
    if end == 0 {
        None
    } else {
        let mut parent = String::new();
        let mut i: usize = 0;
        while i < end
            invariant
                i <= end <= chars.len(),
                parent@ == chars@.take(i as int),
            decreases end - i,
        {
            push_char(&mut parent, chars[i]);
            i += 1;
        }
        Some(parent)
    }
}

/// The root directory of a repository: the parent of its metadata
/// directory.
///
/// `metadata_dir` is where the checkout at hand keeps its metadata. For the
/// main checkout that is the repository's metadata directory itself. A
/// linked worktree keeps its own in `worktrees/<name>` inside the
/// repository's, two levels further down.
pub open spec fn repository_root(metadata_dir: Seq<char>, linked: bool) -> Option<Seq<char>> {
    if linked {
        match parent_directory(metadata_dir) {
            Some(worktrees) => match parent_directory(worktrees) {
                Some(repository) => parent_directory(repository),
                None => None,
            },
            None => None,
        }
    } else {
        parent_directory(metadata_dir)
    }
}

/// The root directory of the repository, written with a closing `/` so that
/// a worktree's name can follow it. `linked` says whether `metadata_dir` is
/// that of a linked worktree.
///
/// `None` where the path has too few components to name the root.
pub fn repo_root(metadata_dir: &str, linked: bool) -> (root: Option<String>)
    ensures
        root.deep_view() == repository_root(metadata_dir@, linked),
{
    if linked {
        match parent_dir(metadata_dir) {
            Some(worktrees) => match parent_dir(worktrees.as_str()) {
                Some(repository) => parent_dir(repository.as_str()),
                None => None,
            },
            None => None,
        }
    } else {
        parent_dir(metadata_dir)
    }
}

/// The local branch that mirrors a remote-tracking branch: the branch's
/// name without the remote in front, `origin/feat/foo` giving `feat/foo`. A
/// name that does not begin with `origin/` is left as it is.
pub open spec fn local_name(remote_branch: Seq<char>) -> Seq<char> {
    without_prefix(remote_branch, "origin/"@)
}

/// The name of the local branch that mirrors `remote_branch_name`.
pub fn local_branch_name(remote_branch_name: &str) -> (local: String)
    ensures
        local@ == local_name(remote_branch_name@),
{
    strip_prefix(remote_branch_name, "origin/")
}

/// The remote-tracking branch of `origin` that a local branch of this name
/// follows.
pub fn remote_branch_name(local_branch_name: &str) -> (remote: String)
    ensures
        remote@ == "origin/"@ + local_branch_name@,
{
    let mut remote = "origin/".to_owned();
    remote.append(local_branch_name);
    remote
}

/// A local branch and its remote-tracking branch name each other: the
/// local name of `origin/<branch>` is `<branch>`, whatever `<branch>` holds.
pub proof fn local_name_of_its_remote(branch: Seq<char>)
    ensures
        local_name("origin/"@ + branch) == branch,
{
    prefix_comes_off_again("origin/"@, branch);
}

/// Deriving a worktree name is idempotent: a derived name holds no `/`, so
/// deriving again changes nothing.
pub proof fn worktree_name_is_idempotent(x: Seq<char>)
    ensures
        worktree_name(worktree_name(x)) == worktree_name(x),
        !worktree_name(x).contains('/'),
        worktree_name(x).len() == x.len(),
{
}

/// Branch names without `-` have different worktree names: only a `-` in a
/// branch name can make it collide with another.
pub proof fn worktree_name_tells_apart_without_dashes(a: Seq<char>, b: Seq<char>)
    requires
        !a.contains('-'),
        !b.contains('-'),
        worktree_name(a) == worktree_name(b),
    ensures
        a == b,
{
    assert(a.len() == worktree_name(a).len());
    assert(b.len() == worktree_name(b).len());
    assert forall|i: int| 0 <= i < a.len() implies a[i] == b[i] by {
        assert(a.contains(a[i]) && b.contains(b[i]));
        assert(worktree_name(a)[i] == if a[i] == '/' { '-' } else { a[i] });
        assert(worktree_name(b)[i] == if b[i] == '/' { '-' } else { b[i] });
    }
}

/// Where a branch name holds exactly one `/`, its worktree name is the branch
/// name with `-` in that place and every other character as it was.
pub proof fn worktree_name_replaces_the_separator(b: Seq<char>, i: int)
    requires
        0 <= i < b.len(),
        b[i] == '/',
        forall|j: int| 0 <= j < b.len() && j != i ==> b[j] != '/',
    ensures
        worktree_name(b) == b.update(i, '-'),
{
}

/// Normalizing is idempotent: a key holds word characters only, so
/// normalizing it again changes nothing.
pub proof fn normalized_is_idempotent(x: Seq<char>)
    ensures
        normalized(normalized(x)) == normalized(x),
        forall|i: int| 0 <= i < normalized(x).len() ==> is_word(#[trigger] normalized(x)[i]),
    decreases x.len(),
{
    let keep = |c: char| is_word(c);
    if x.len() > 0 {
        let init = x.drop_last();
        normalized_is_idempotent(init);
        assert(x =~= init.push(x.last()));
        init.lemma_filter_push(x.last(), keep);
        if is_word(x.last()) {
            normalized(init).lemma_filter_push(x.last(), keep);
        }
    }
}

/// Normalizing keeps the order of what it retains: the key of a
/// concatenation is the concatenation of the keys, and a single character is
/// kept as it is or dropped.
pub proof fn normalized_keeps_order(a: Seq<char>, b: Seq<char>, c: char)
    ensures
        normalized(a + b) == normalized(a) + normalized(b),
        normalized(seq![c]) == if is_word(c) { seq![c] } else { Seq::<char>::empty() },
{
    let keep = |c: char| is_word(c);
    Seq::filter_distributes_over_add(a, b, keep);
    Seq::<char>::empty().lemma_filter_push(c, keep);
}

/// A worktree name has the key of the branch it was derived from: `/` and `-`
/// are both dropped by normalization, and nothing else differs.
pub proof fn worktree_name_keeps_the_key(b: Seq<char>)
    ensures
        normalized(worktree_name(b)) == normalized(b),
    decreases b.len(),
{
    let keep = |c: char| is_word(c);
    if b.len() > 0 {
        let init = b.drop_last();
        let last = b.last();
        worktree_name_keeps_the_key(init);
        assert(b =~= init.push(last));
        assert(worktree_name(b) =~= worktree_name(init).push(if last == '/' { '-' } else { last }));
        init.lemma_filter_push(last, keep);
        worktree_name(init).lemma_filter_push(if last == '/' { '-' } else { last }, keep);
    }
}

} // verus!
