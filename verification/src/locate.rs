//! Where a module lies on disk: the first process argument, taken relative
//! to the container's filesystem root.

use vstd::prelude::*;
use crate::text::{char_len, join_text, slice_text};

verus! {

/// The character that separates the components of a path.
pub const SEPARATOR: char = '/';

/// Whether `path` begins with a separator.
pub open spec fn begins_with_separator(path: Seq<char>) -> bool {
    path.len() > 0 && path[0] == SEPARATOR
}

/// Whether `path` ends with a separator.
pub open spec fn ends_with_separator(path: Seq<char>) -> bool {
    path.len() > 0 && path[path.len() - 1] == SEPARATOR
}

/// `path` without its leading separator, where it has one. One separator is
/// taken away, never more.
pub open spec fn stripped(path: Seq<char>) -> Seq<char> {
    if begins_with_separator(path) {
        path.subrange(1, path.len() as int)
    } else {
        path
    }
}

/// `rest` placed under `root`: a separator stands between the two unless
/// `root` is empty or brings one at its end. `rest` is appended also where it
/// begins with a separator, so that the result never leaves `root`.
pub open spec fn joined(root: Seq<char>, rest: Seq<char>) -> Seq<char> {
    if root.len() == 0 || ends_with_separator(root) {
        root + rest
    } else {
        root + seq![SEPARATOR] + rest
    }
}

/// The path of the module that `first_arg` names in the container rooted at
/// `root`.
pub open spec fn resolved_path(root: Seq<char>, first_arg: Seq<char>) -> Seq<char> {
    joined(root, stripped(first_arg))
}

/// Takes one leading separator away from `path`, where it has one.
pub fn strip_leading_separator(path: &str) -> (rest: String)
    ensures
        rest@ == stripped(path@),
{
    let n: usize = char_len(path);
    if n > 0 && path.get_char(0) == SEPARATOR {
        slice_text(path, 1, n)
    } else {
        let whole = slice_text(path, 0, n);
        assert(path@.subrange(0, n as int) =~= path@);
        whole
    }
}

/// Places `rest` under `root`.
pub fn join_path(root: &str, rest: &str) -> (path: String)
    ensures
        path@ == joined(root@, rest@),
{
    let n: usize = char_len(root);
    if n == 0 || root.get_char(n - 1) == SEPARATOR {
        join_text(root, rest)
    } else {
        proof {
            reveal_strlit("/");
            assert("/"@ =~= seq![SEPARATOR]);
        }
        let head = join_text(root, "/");
        join_text(head.as_str(), rest)
    }
}

/// Resolves the module that `first_arg` names against the container's root:
/// one leading separator is taken from the argument and what is left is
/// placed under `root`.
pub fn resolve_module_path(root: &str, first_arg: &str) -> (path: String)
    ensures
        path@ == resolved_path(root@, first_arg@),
{
    let rest = strip_leading_separator(first_arg);
    join_path(root, rest.as_str())
}

/// The resolved path lies under the root: it begins with the root's own
/// characters, whatever the argument holds.
pub proof fn law_resolved_path_under_root(root: Seq<char>, first_arg: Seq<char>)
    ensures
        root.is_prefix_of(resolved_path(root, first_arg)),
{
    let rest = stripped(first_arg);
    if root.len() == 0 || ends_with_separator(root) {
        assert((root + rest).subrange(0, root.len() as int) =~= root);
    } else {
        assert((root + seq![SEPARATOR] + rest).subrange(0, root.len() as int) =~= root);
    }
}

/// An argument that is written with one leading separator and the same
/// argument written without it name the same module.
pub proof fn law_leading_separator_is_optional(root: Seq<char>, relative: Seq<char>)
    requires
        !begins_with_separator(relative),
    ensures
        resolved_path(root, seq![SEPARATOR] + relative) == resolved_path(root, relative),
{
    let absolute = seq![SEPARATOR] + relative;
    assert(absolute.subrange(1, absolute.len() as int) =~= relative);
}

/// Only one separator is taken away: of an argument that begins with two,
/// the second stays in the path.
pub proof fn law_one_separator_is_stripped(path: Seq<char>)
    requires
        begins_with_separator(path),
    ensures
        stripped(path).len() == path.len() - 1,
        seq![SEPARATOR] + stripped(path) == path,
{
    assert(seq![SEPARATOR] + stripped(path) =~= path);
}

} // verus!
