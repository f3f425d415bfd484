//! Finding the executable that a command's name stands for.
//!
//! A plain name is looked for in the directories of the search path, in
//! their order; a name that holds a `/` is a path already and is not looked
//! for there.  What the search path does not yield is taken as a path from
//! the current directory if a file stands there, and is not found otherwise.
//! Looking at the file system is the caller's part: it probes the candidates
//! that this module lists and hands back what it saw.

use crate::command::{CommandSpec, CommandView, ResolvedCommand, ResolvedView};
use crate::error::{ErrorView, MonitorError};
use crate::path::{
    base_name, has_no_slash, has_slash, is_absolute, join_path, join_path_of, lemma_base_name,
    lemma_base_name_of_joined, lemma_base_name_of_local, local_path, local_path_of,
};
use crate::text::{split_on, split_text};
use vstd::prelude::*;

verus! {

/// The path under which the command `name` would stand in the directory
/// `dir` of the search path.  An empty entry of the search path stands for
/// the current directory.
pub open spec fn candidate(dir: Seq<char>, name: Seq<char>) -> Seq<char> {
    if dir.len() == 0 {
        local_path(name)
    } else {
        join_path(dir, name)
    }
}

/// The paths under which a command may be found on the search path, in the
/// order in which they are to be tried: one for each directory that the
/// search path names between its colons, and none for a name that is a path
/// itself.
pub open spec fn candidates(name: Seq<char>, search_path: Seq<char>) -> Seq<Seq<char>> {
    if has_no_slash(name) {
        split_on(search_path, ':').map_values(|dir: Seq<char>| candidate(dir, name))
    } else {
        Seq::<Seq<char>>::empty()
    }
}

/// The first position at which `found` holds `true`, if there is one.
pub open spec fn first_hit(found: Seq<bool>) -> Option<int>
    decreases found.len(),
{
    if found.len() == 0 {
        None
    } else {
        match first_hit(found.drop_last()) {
            Some(i) => Some(i),
            None => if found.last() {
                Some(found.len() - 1)
            } else {
                None
            },
        }
    }
}

/// The probes that count: one for each candidate, as far as there are both.
pub open spec fn probes_in_reach(executable: Seq<bool>, paths: Seq<Seq<char>>) -> Seq<bool> {
    if executable.len() <= paths.len() {
        executable
    } else {
        executable.take(paths.len() as int)
    }
}

/// What resolving a command comes to.  `executable` says for each candidate
/// on the search path whether an executable file stands there, and
/// `found_locally` whether the name leads to a file from the current
/// directory.
pub open spec fn resolution(
    command: CommandView,
    search_path: Seq<char>,
    executable: Seq<bool>,
    found_locally: bool,
) -> Result<ResolvedView, ErrorView> {
    let paths = candidates(command.name, search_path);
    match first_hit(probes_in_reach(executable, paths)) {
        Some(i) => Ok(ResolvedView { program: paths[i], args: command.args }),
        None => if found_locally {
            Ok(ResolvedView { program: local_path(command.name), args: command.args })
        } else {
            Err(ErrorView::CommandNotFound(command.name))
        },
    }
}

/// The mathematical content of what `resolve` returns.
pub open spec fn resolved_view(result: Result<ResolvedCommand, MonitorError>) -> Result<
    ResolvedView,
    ErrorView,
> {
    match result {
        Ok(command) => Ok(command@),
        Err(error) => Err(error@),
    }
}

/// The path under which the command `name` would stand in the directory
/// `dir` of the search path.
pub fn candidate_of(dir: &str, name: &str) -> (path: String)
    ensures
        path@ == candidate(dir@, name@),
{
    if dir.unicode_len() == 0 {
        local_path_of(name)
    } else {
        join_path_of(dir, name)
    }
}

/// Lists the paths under which the command `name` may stand on the search
/// path.
pub fn search_candidates(name: &str, search_path: &str) -> (paths: Vec<String>)
    ensures
        paths.deep_view() == candidates(name@, search_path@),
{
    let mut paths: Vec<String> = Vec::new();
    if has_slash(name) {
        return paths;
    }
    let dirs = split_text(search_path, ':');
    let mut i: usize = 0;
    while i < dirs.len()
        invariant
            i <= dirs.len(),
            paths.len() == i,
            forall|k: int| 0 <= k < i ==> paths@[k]@ == candidate(dirs@[k]@, name@),
        decreases dirs.len() - i,
    {
        let path = candidate_of(dirs[i].as_str(), name);
        paths.push(path);
        i = i + 1;
    }
    assert(paths.deep_view() =~= dirs.deep_view().map_values(
        |dir: Seq<char>| candidate(dir, name@),
    ));
    paths
}

/// Settles which executable a command runs, from what the caller saw of the
/// candidates that [`search_candidates`] lists for the command's name and
/// `search_path`.  The first candidate with an executable file is taken;
/// then the name itself, if it leads to a file from the current directory;
/// else the command is not found.
pub fn resolve(
    command: CommandSpec,
    search_path: &str,
    executable: &Vec<bool>,
    found_locally: bool,
) -> (result: Result<ResolvedCommand, MonitorError>)
    ensures
        resolved_view(result) == resolution(command@, search_path@, executable@, found_locally),
{
    let mut paths = search_candidates(command.name.as_str(), search_path);
    let ghost listed = paths.deep_view();
    let ghost probes = probes_in_reach(executable@, listed);
    let reach = if executable.len() <= paths.len() {
        executable.len()
    } else {
        paths.len()
    };
    let mut i: usize = 0;
    while i < reach
        invariant
            i <= reach,
            reach == probes.len(),
            reach <= paths.len(),
            probes == probes_in_reach(executable@, listed),
            listed == paths.deep_view(),
            listed == candidates(command@.name, search_path@),
            first_hit(probes.take(i as int)) is None,
        decreases reach - i,
    {
        assert(probes.take(i + 1).drop_last() =~= probes.take(i as int));
        if executable[i] {
            proof {
                lemma_first_hit_of_prefix(probes, i + 1);
            }
            let program = paths.swap_remove(i);
            return Ok(ResolvedCommand { program, args: command.args });
        }
        i = i + 1;
    }
    assert(probes.take(reach as int) =~= probes);
    if found_locally {
        let program = local_path_of(command.name.as_str());
        Ok(ResolvedCommand { program, args: command.args })
    } else {
        Err(MonitorError::CommandNotFound(command.name))
    }
}

/// A hit among the first probes is the first hit of them all.
pub proof fn lemma_first_hit_of_prefix(found: Seq<bool>, length: int)
    requires
        0 <= length <= found.len(),
        first_hit(found.take(length)) is Some,
    ensures
        first_hit(found) == first_hit(found.take(length)),
    decreases found.len(),
{
    if length < found.len() {
        assert(found.drop_last().take(length) =~= found.take(length));
        lemma_first_hit_of_prefix(found.drop_last(), length);
    } else {
        assert(found.take(length) =~= found);
    }
}

/// What `first_hit` finds is a hit with no hit before it, and it finds none
/// only where there is none.
pub proof fn lemma_first_hit(found: Seq<bool>)
    ensures
        match first_hit(found) {
            Some(i) => 0 <= i < found.len() && found[i] && forall|j: int|
                0 <= j < i ==> !found[j],
            None => forall|j: int| 0 <= j < found.len() ==> !found[j],
        },
    decreases found.len(),
{
    if found.len() > 0 {
        let front = found.drop_last();
        lemma_first_hit(front);
        match first_hit(front) {
            Some(i) => {
                assert forall|j: int| 0 <= j < i implies !found[j] by {
                    assert(found[j] == front[j]);
                }
            },
            None => {
                assert forall|j: int| 0 <= j < found.len() - 1 implies !found[j] by {
                    assert(found[j] == front[j]);
                }
            },
        }
    }
}

/// A hit with no hit before it is the one that `first_hit` finds.
pub proof fn lemma_first_hit_is(found: Seq<bool>, hit: int)
    requires
        0 <= hit < found.len(),
        found[hit],
        forall|j: int| 0 <= j < hit ==> !found[j],
    ensures
        first_hit(found) == Some(hit),
{
    lemma_first_hit(found);
}

/// A command's name that an executable on the search path answers to resolves
/// to that entry: to the name in the first directory of the search path
/// whose candidate was seen to be executable, whatever stands in the current
/// directory.  The path found is absolute where the search path names that
/// directory by an absolute path.
pub proof fn law_found_on_search_path(
    command: CommandView,
    search_path: Seq<char>,
    executable: Seq<bool>,
    found_locally: bool,
    hit: int,
)
    requires
        has_no_slash(command.name),
        0 <= hit < executable.len(),
        hit < split_on(search_path, ':').len(),
        executable[hit],
        forall|j: int| 0 <= j < hit ==> !executable[j],
    ensures
        resolution(command, search_path, executable, found_locally) == Ok::<
            ResolvedView,
            ErrorView,
        >(
            ResolvedView {
                program: candidate(split_on(search_path, ':')[hit], command.name),
                args: command.args,
            },
        ),
        is_absolute(split_on(search_path, ':')[hit]) ==> is_absolute(
            candidate(split_on(search_path, ':')[hit], command.name),
        ),
{
    let paths = candidates(command.name, search_path);
    lemma_first_hit_is(probes_in_reach(executable, paths), hit);
}

/// A command that no directory of the search path holds, and that leads to
/// a file from the current directory, resolves to that file: to `./` and the
/// name for a plain name, to the path itself otherwise.  A relative name
/// stays relative.
pub proof fn law_found_in_current_directory(
    command: CommandView,
    search_path: Seq<char>,
    executable: Seq<bool>,
)
    requires
        forall|j: int| 0 <= j < executable.len() ==> !executable[j],
    ensures
        resolution(command, search_path, executable, true) == Ok::<ResolvedView, ErrorView>(
            ResolvedView { program: local_path(command.name), args: command.args },
        ),
        !is_absolute(command.name) ==> !is_absolute(local_path(command.name)),
{
    let paths = candidates(command.name, search_path);
    lemma_first_hit(probes_in_reach(executable, paths));
}

/// A command is not found exactly when no candidate on the search path was
/// seen to be executable and the name leads to no file from the current
/// directory; the error then names the command.
pub proof fn law_not_found(
    command: CommandView,
    search_path: Seq<char>,
    executable: Seq<bool>,
    found_locally: bool,
)
    ensures
        resolution(command, search_path, executable, found_locally) is Err <==> !found_locally
            && first_hit(
            probes_in_reach(executable, candidates(command.name, search_path)),
        ) is None,
        resolution(command, search_path, executable, found_locally) is Err ==> resolution(
            command,
            search_path,
            executable,
            found_locally,
        ) == Err::<ResolvedView, ErrorView>(ErrorView::CommandNotFound(command.name)),
{
}

/// Resolving keeps the arguments, and it keeps the base name: wherever the
/// executable was found, the last segment of its path is the last segment of
/// the name that the user gave, so failures are logged under that name.
pub proof fn law_resolution_keeps_base_name(
    command: CommandView,
    search_path: Seq<char>,
    executable: Seq<bool>,
    found_locally: bool,
)
    ensures
        match resolution(command, search_path, executable, found_locally) {
            Ok(resolved) => resolved.args == command.args && base_name(resolved.program)
                == base_name(command.name),
            Err(_) => true,
        },
{
    let paths = candidates(command.name, search_path);
    let probes = probes_in_reach(executable, paths);
    lemma_first_hit(probes);
    match first_hit(probes) {
        Some(i) => {
            let dir = split_on(search_path, ':')[i];
            lemma_base_name_of_joined(dir, command.name);
            lemma_base_name_of_local(command.name);
            lemma_base_name(command.name);
        },
        None => {
            lemma_base_name_of_local(command.name);
        },
    }
}

} // verus!
