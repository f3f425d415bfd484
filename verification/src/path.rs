//! Paths as character sequences: joining a name to a directory, and
//! taking the last segment of a path.

use crate::text::split_on;
use vstd::prelude::*;

verus! {

/// Whether `text` is free of the path separator `/`.
pub open spec fn has_no_slash(text: Seq<char>) -> bool {
    forall|i: int| 0 <= i < text.len() ==> text[i] != '/'
}

/// Whether `path` starts at the root of the file system.
pub open spec fn is_absolute(path: Seq<char>) -> bool {
    path.len() > 0 && path[0] == '/'
}

/// The path of the entry `name` in the directory `dir`.  An empty directory
/// name stands for the current directory.
pub open spec fn join_path(dir: Seq<char>, name: Seq<char>) -> Seq<char> {
    if dir.len() == 0 {
        name
    } else if dir.last() == '/' {
        dir + name
    } else {
        dir + seq!['/'] + name
    }
}

/// The path by which a file of the current directory is run: a plain name
/// gets `./` in front, so that it is not looked for on the search path
/// again; a path is kept.
pub open spec fn local_path(name: Seq<char>) -> Seq<char> {
    if has_no_slash(name) {
        seq!['.', '/'] + name
    } else {
        name
    }
}

/// The position just behind the last `/` of `path`, or 0 where it has none.
pub open spec fn base_start(path: Seq<char>) -> int
    decreases path.len(),
{
    if path.len() == 0 {
        0
    } else if path.last() == '/' {
        path.len() as int
    } else {
        base_start(path.drop_last())
    }
}

/// The last segment of `path`: what follows its last `/`, or all of it where
/// it has none.
pub open spec fn base_name(path: Seq<char>) -> Seq<char> {
    path.subrange(base_start(path), path.len() as int)
}

/// Whether `text` holds a `/`.
pub fn has_slash(text: &str) -> (found: bool)
    ensures
        found == !has_no_slash(text@),
{
    for c in it: text.chars()
        invariant
            it.seq() == text@,
            forall|i: int| 0 <= i < it.index() ==> text@[i] != '/',
    {
        if c == '/' {
            return true;
        }
    }
    false
}

/// The path of the entry `name` in the directory `dir`.
pub fn join_path_of(dir: &str, name: &str) -> (path: String)
    ensures
        path@ == join_path(dir@, name@),
{
    let length = dir.unicode_len();
    if length == 0 {
        return String::from_str(name);
    }
    let mut path = String::from_str(dir);
    if dir.get_char(length - 1) != '/' {
        path.append("/");
        proof {
            reveal_strlit("/");
        }
    }
    path.append(name);
    path
}

/// The path by which a file of the current directory is run.
pub fn local_path_of(name: &str) -> (path: String)
    ensures
        path@ == local_path(name@),
{
    if has_slash(name) {
        String::from_str(name)
    } else {
        let mut path = String::from_str("./");
        proof {
            reveal_strlit("./");
        }
        path.append(name);
        path
    }
}

/// The last segment of a command's path.
pub fn base_name_of(path: &str) -> (name: String)
    ensures
        name@ == base_name(path@),
{
    let total = path.unicode_len();
    let mut start: usize = 0;
    let mut seen: usize = 0;
    for c in it: path.chars()
        invariant
            seen == it.index(),
            it.seq() == path@,
            total == path@.len(),
            start == base_start(path@.take(seen as int)),
            start <= seen <= total,
    {
        assert(path@.take(seen + 1).drop_last() =~= path@.take(seen as int));
        seen = seen + 1;
        if c == '/' {
            start = seen;
        }
    }
    assert(path@.take(total as int) =~= path@);
    String::from_str(path.substring_char(start, total))
}

/// The base name starts at the beginning of the path or just behind a `/`,
/// and no `/` follows that position.
pub proof fn lemma_base_start(path: Seq<char>)
    ensures
        0 <= base_start(path) <= path.len(),
        base_start(path) == 0 || path[base_start(path) - 1] == '/',
        forall|i: int| base_start(path) <= i < path.len() ==> path[i] != '/',
    decreases path.len(),
{
    if path.len() > 0 && path.last() != '/' {
        let front = path.drop_last();
        lemma_base_start(front);
        assert forall|i: int| base_start(path) <= i < path.len() implies path[i] != '/' by {
            if i < front.len() {
                assert(path[i] == front[i]);
            }
        }
    }
}

/// Only one position splits a path as the base name does: one that stands at
/// the beginning or behind a `/` and has no `/` after it.
pub proof fn lemma_base_start_unique(path: Seq<char>, start: int)
    requires
        0 <= start <= path.len(),
        start == 0 || path[start - 1] == '/',
        forall|i: int| start <= i < path.len() ==> path[i] != '/',
    ensures
        start == base_start(path),
{
    lemma_base_start(path);
}

/// A base name holds no `/` and ends the path it was taken from; it is the
/// whole path where that holds no `/`.
pub proof fn lemma_base_name(path: Seq<char>)
    ensures
        has_no_slash(base_name(path)),
        path == path.subrange(0, base_start(path)) + base_name(path),
        has_no_slash(path) ==> base_name(path) == path,
{
    lemma_base_start(path);
    if has_no_slash(path) {
        lemma_base_start_unique(path, 0);
    }
}

/// The base name is the last of the pieces that the path falls into at its
/// slashes.
pub proof fn law_base_name_is_last_piece(path: Seq<char>)
    ensures
        split_on(path, '/').len() >= 1,
        base_name(path) == split_on(path, '/').last(),
    decreases path.len(),
{
    if path.len() > 0 {
        let front = path.drop_last();
        law_base_name_is_last_piece(front);
        lemma_base_start(front);
    }
}

/// Whatever stands in front of a `/`, the base name is what follows the
/// last one: putting a directory before a plain name leaves the name.
pub proof fn lemma_base_name_after_slash(prefix: Seq<char>, name: Seq<char>)
    requires
        has_no_slash(name),
    ensures
        base_name(prefix + seq!['/'] + name) == name,
{
    let path = prefix + seq!['/'] + name;
    let start = prefix.len() + 1;
    assert(forall|i: int| start <= i < path.len() ==> path[i] == name[i - start]);
    lemma_base_start_unique(path, start as int);
}

/// The entry `name` of any directory has `name` for its base name, where
/// `name` is a plain one.
pub proof fn lemma_base_name_of_joined(dir: Seq<char>, name: Seq<char>)
    requires
        has_no_slash(name),
    ensures
        base_name(join_path(dir, name)) == name,
{
    if dir.len() == 0 {
        lemma_base_name(name);
    } else if dir.last() == '/' {
        assert(dir + name =~= dir.drop_last() + seq!['/'] + name);
        lemma_base_name_after_slash(dir.drop_last(), name);
    } else {
        lemma_base_name_after_slash(dir, name);
    }
}

/// A file of the current directory is run by a path with the base name of
/// the name it was asked for by.
pub proof fn lemma_base_name_of_local(name: Seq<char>)
    ensures
        base_name(local_path(name)) == base_name(name),
{
    if has_no_slash(name) {
        assert(seq!['.', '/'] + name =~= seq!['.'] + seq!['/'] + name);
        lemma_base_name_after_slash(seq!['.'], name);
        lemma_base_name(name);
    }
}

} // verus!
