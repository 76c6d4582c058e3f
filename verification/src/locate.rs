//! Resolving the project root: the directory that directly holds the main
//! document file.
//!
//! A user-supplied path is judged from what the file system says about it
//! (`PathKind` and, for a directory, whether the main document is inside).
//! Without an argument the search ascends from the current directory one
//! parent at a time; `ascend_step` decides each step, and `search_from` is
//! the mathematical account of the whole ascent.

use vstd::prelude::*;

use crate::ascii::{ascii_bytes, bytes_eq, bytes_of, subvec, wrap_bytes};
use crate::config::{main_tex_file, spec_main_tex_file};
use crate::logs::Log;
use crate::paths::{
    is_absolute, is_fs_root, last_slash_idx, lemma_last_slash_idx, lemma_parent_of_absolute,
    parent_dir, spec_file_name, spec_parent, last_slash_of, DOT, SLASH,
};

verus! {

/// What the file system says a path names.
#[derive(Clone, Copy, PartialEq, Eq, Debug)]
pub enum PathKind {
    /// Nothing exists at the path.
    Missing,
    /// A regular file.
    File,
    /// A directory.
    Directory,
    /// Something else (a socket, a device, a dangling link target).
    Other,
}

pub open spec fn msg_not_exist(p: Seq<u8>) -> Seq<u8> {
    ascii_bytes("File or directory `"@) + p + ascii_bytes("` doesn't exist."@)
}

pub open spec fn msg_wrong_file_name(p: Seq<u8>) -> Seq<u8> {
    ascii_bytes("Invalid file name `"@) + p + ascii_bytes(
        "`. Only the main `.tex` file (`main.tex`) can be compiled."@,
    )
}

pub open spec fn msg_main_not_inside(p: Seq<u8>) -> Seq<u8> {
    ascii_bytes("Failed to find the main `.tex` file (`main.tex`) inside `"@) + p + ascii_bytes(
        "`."@,
    )
}

pub open spec fn msg_invalid_path_kind(p: Seq<u8>) -> Seq<u8> {
    ascii_bytes("File `"@) + p + ascii_bytes(
        "` should be either the root directory of the project or the main `.tex` file (`main.tex`)"@,
    )
}

pub open spec fn msg_search_exhausted() -> Seq<u8> {
    ascii_bytes(
        "Can't find file `main.tex` neither in the current directory, nor in any parent directory."@,
    )
}

pub open spec fn msg_cwd_failed(detail: Seq<u8>) -> Seq<u8> {
    ascii_bytes("While looking for `main.tex` file: failed to get current directory.\n"@) + detail
}

/// The root a path names when it is the main document file itself: its
/// parent directory, with an empty parent standing for the current
/// directory `.` rather than for a path of its own.
pub open spec fn spec_root_for_main_file(p: Seq<u8>) -> Seq<u8> {
    match spec_parent(p) {
        Some(par) => if par.len() == 0 {
            seq![DOT]
        } else {
            par
        },
        None => Seq::empty(),
    }
}

/// A path whose file name is the main document's name always has a parent.
proof fn lemma_main_file_has_parent(p: Seq<u8>)
    requires
        spec_file_name(p) == spec_main_tex_file(),
    ensures
        spec_parent(p) is Some,
{
    reveal_strlit("main.tex");
    assert(spec_main_tex_file().len() == 8);
    if p.len() == 0 {
        assert(spec_file_name(p).len() == 0);
    } else if p == seq![SLASH] {
        assert(last_slash_idx(seq![SLASH]) == 0);
        assert(spec_file_name(p).len() == 0);
    }
}

/// Resolves the project root from a user-supplied path.
///
/// `kind` is what the file system reports for `arg`; `dir_contains_main`
/// says, when `arg` is a directory, whether the main document file is a
/// regular file directly inside it (it is ignored otherwise).
pub fn find_project_root_directory(arg: &Vec<u8>, kind: PathKind, dir_contains_main: bool) -> (r:
    Result<Vec<u8>, Log>)
    ensures
        kind is Missing ==> (r matches Err(Log::InvalidCommandLineArgument(m)) && m@
            == msg_not_exist(arg@)),
        kind is File && spec_file_name(arg@) == spec_main_tex_file() ==> (r matches Ok(root)
            && root@ == spec_root_for_main_file(arg@)),
        kind is File && spec_file_name(arg@) != spec_main_tex_file() ==> (r matches Err(
            Log::InvalidCommandLineArgument(m),
        ) && m@ == msg_wrong_file_name(arg@)),
        kind is Directory && dir_contains_main ==> (r matches Ok(root) && root@ == arg@),
        kind is Directory && !dir_contains_main ==> (r matches Err(
            Log::InvalidCommandLineArgument(m),
        ) && m@ == msg_main_not_inside(arg@)),
        kind is Other ==> (r matches Err(Log::InvalidCommandLineArgument(m)) && m@
            == msg_invalid_path_kind(arg@)),
{
    proof {
        reveal_strlit("File or directory `");
        reveal_strlit("` doesn't exist.");
        reveal_strlit("Invalid file name `");
        reveal_strlit("`. Only the main `.tex` file (`main.tex`) can be compiled.");
        reveal_strlit("Failed to get the directory containing `");
        reveal_strlit("`");
        reveal_strlit("Failed to find the main `.tex` file (`main.tex`) inside `");
        reveal_strlit("`.");
        reveal_strlit("File `");
        reveal_strlit(
            "` should be either the root directory of the project or the main `.tex` file (`main.tex`)",
        );
    }
    match kind {
        PathKind::Missing => Err(
            Log::InvalidCommandLineArgument(
                wrap_bytes("File or directory `", arg, "` doesn't exist."),
            ),
        ),
        PathKind::File => {
            let name = crate::paths::file_name_of(arg);
            let expected = main_tex_file();
            if bytes_eq(&name, &expected) {
                proof {
                    lemma_main_file_has_parent(arg@);
                }
                match crate::paths::parent_of(arg) {
                    Some(par) => {
                        if par.len() == 0 {
                            let mut dot: Vec<u8> = Vec::new();
                            dot.push(DOT);
                            proof {
                                assert(dot@ =~= seq![DOT]);
                            }
                            Ok(dot)
                        } else {
                            Ok(par)
                        }
                    },
                    None => Err(
                        Log::FileSystemError(
                            wrap_bytes("Failed to get the directory containing `", arg, "`"),
                        ),
                    ),
                }
            } else {
                Err(
                    Log::InvalidCommandLineArgument(
                        wrap_bytes(
                            "Invalid file name `",
                            arg,
                            "`. Only the main `.tex` file (`main.tex`) can be compiled.",
                        ),
                    ),
                )
            }
        },
        PathKind::Directory => {
            if dir_contains_main {
                let root = subvec(arg, 0, arg.len());
                proof {
                    assert(root@ =~= arg@);
                }
                Ok(root)
            } else {
                Err(
                    Log::InvalidCommandLineArgument(
                        wrap_bytes(
                            "Failed to find the main `.tex` file (`main.tex`) inside `",
                            arg,
                            "`.",
                        ),
                    ),
                )
            }
        },
        PathKind::Other => Err(
            Log::InvalidCommandLineArgument(
                wrap_bytes(
                    "File `",
                    arg,
                    "` should be either the root directory of the project or the main `.tex` file (`main.tex`)",
                ),
            ),
        ),
    }
}

/// The error reported when no ancestor of the current directory holds the
/// main document file.
pub fn search_exhausted_error() -> (r: Log)
    ensures
        r matches Log::InvalidCommandLineArgument(m) && m@ == msg_search_exhausted(),
{
    proof {
        reveal_strlit(
            "Can't find file `main.tex` neither in the current directory, nor in any parent directory.",
        );
    }
    Log::InvalidCommandLineArgument(
        bytes_of(
            "Can't find file `main.tex` neither in the current directory, nor in any parent directory.",
        ),
    )
}

/// The error reported when the current directory itself cannot be read.
pub fn cwd_error(detail: &Vec<u8>) -> (r: Log)
    ensures
        r matches Log::FileSystemError(m) && m@ == msg_cwd_failed(detail@),
{
    proof {
        reveal_strlit("While looking for `main.tex` file: failed to get current directory.\n");
    }
    let mut m = bytes_of("While looking for `main.tex` file: failed to get current directory.\n");
    m.extend_from_slice(detail.as_slice());
    Log::FileSystemError(m)
}

/// One step of the upward search.
pub enum SearchStep {
    /// The main document is here: this directory is the project root.
    Found(Vec<u8>),
    /// Not here: continue from the parent directory.
    Ascend(Vec<u8>),
    /// Not here and there is no parent left: the search has failed.
    Exhausted,
}

/// Decides one step of the upward search: stop at the directory that holds
/// the main document, ascend otherwise, give up at the file-system root.
pub fn ascend_step(current: &Vec<u8>, has_main_here: bool) -> (r: SearchStep)
    requires
        is_absolute(current@),
    ensures
        has_main_here ==> (r matches SearchStep::Found(p) && p@ == current@),
        !has_main_here && !is_fs_root(current@) ==> (r matches SearchStep::Ascend(p) && p@
            == parent_dir(current@)),
        !has_main_here && is_fs_root(current@) ==> r is Exhausted,
{
    if has_main_here {
        let here = subvec(current, 0, current.len());
        proof {
            assert(here@ =~= current@);
        }
        return SearchStep::Found(here);
    }
    if current.len() == 1 {
        proof {
            assert(current@ =~= seq![SLASH]);
        }
        return SearchStep::Exhausted;
    }
    proof {
        assert(!is_fs_root(current@)) by {
            if current@ == seq![SLASH] {
                assert(current@.len() == 1);
            }
        }
        lemma_parent_of_absolute(current@);
        lemma_last_slash_idx(current@);
    }
    match last_slash_of(current) {
        Some(i) => {
            if i >= 1 {
                SearchStep::Ascend(subvec(current, 0, i))
            } else {
                let mut root: Vec<u8> = Vec::new();
                root.push(SLASH);
                proof {
                    assert(root@ =~= seq![SLASH]);
                }
                SearchStep::Ascend(root)
            }
        },
        None => {
            proof {
                assert(current@[0] == SLASH);
                assert(false);
            }
            SearchStep::Exhausted
        },
    }
}

/// The set of directory paths in a list.
pub open spec fn path_set(l: Seq<Vec<u8>>) -> Set<Seq<u8>> {
    Set::new(|q: Seq<u8>| exists|i: int| 0 <= i < l.len() && l[i]@ == q)
}

/// Where the upward search from `p` ends when exactly the directories in
/// `fs` hold the main document: the nearest of `p` and its ancestors that
/// is in `fs`, or nothing once the root is passed.
pub open spec fn search_from(fs: Set<Seq<u8>>, p: Seq<u8>) -> Option<Seq<u8>>
    decreases p.len(),
{
    if fs.contains(p) {
        Some(p)
    } else if p.len() <= 1 {
        None
    } else {
        search_from(fs, parent_dir(p))
    }
}

/// The directory `k` ascents above `p` (staying at the root once reached).
pub open spec fn ancestor_at(p: Seq<u8>, k: nat) -> Seq<u8>
    decreases k,
{
    if k == 0 {
        p
    } else {
        ancestor_at(parent_dir(p), (k - 1) as nat)
    }
}

/// Every ancestor of the file-system root is the root itself.
pub proof fn lemma_root_ancestors(k: nat)
    ensures
        ancestor_at(seq![SLASH], k) == seq![SLASH],
    decreases k,
{
    assert(last_slash_idx(seq![SLASH]) == 0);
    if k > 0 {
        lemma_root_ancestors((k - 1) as nat);
    }
}

/// When the main document first appears `d` levels above the start, the
/// search ascends exactly those `d` levels and returns that ancestor.
pub proof fn lemma_search_finds_first_ancestor(fs: Set<Seq<u8>>, start: Seq<u8>, d: nat)
    requires
        is_absolute(start),
        fs.contains(ancestor_at(start, d)),
        forall|k: nat| k < d ==> !fs.contains(#[trigger] ancestor_at(start, k)),
    ensures
        search_from(fs, start) == Some(ancestor_at(start, d)),
    decreases d,
{
    if d == 0 {
    } else {
        assert(!fs.contains(ancestor_at(start, 0)));
        assert(ancestor_at(start, 0) == start);
        if is_fs_root(start) {
            lemma_root_ancestors(d);
            assert(false);
        } else {
            lemma_parent_of_absolute(start);
            assert(start.len() >= 2) by {
                if start.len() == 1 {
                    assert(start =~= seq![SLASH]);
                }
            }
            let par = parent_dir(start);
            assert forall|k: nat| k < (d - 1) as nat implies !fs.contains(
                #[trigger] ancestor_at(par, k),
            ) by {
                assert(ancestor_at(start, (k + 1) as nat) == ancestor_at(par, k));
                assert(!fs.contains(ancestor_at(start, (k + 1) as nat)));
            }
            assert(ancestor_at(start, d) == ancestor_at(par, (d - 1) as nat));
            lemma_search_finds_first_ancestor(fs, par, (d - 1) as nat);
        }
    }
}

/// When no ancestor of the start holds the main document, the search fails.
pub proof fn lemma_search_exhausts(fs: Set<Seq<u8>>, start: Seq<u8>)
    requires
        is_absolute(start),
        forall|k: nat| !fs.contains(#[trigger] ancestor_at(start, k)),
    ensures
        search_from(fs, start) is None,
    decreases start.len(),
{
    assert(!fs.contains(ancestor_at(start, 0)));
    assert(ancestor_at(start, 0) == start);
    if start.len() <= 1 {
    } else {
        assert(!is_fs_root(start)) by {
            if start == seq![SLASH] {
                assert(start.len() == 1);
            }
        }
        lemma_parent_of_absolute(start);
        let par = parent_dir(start);
        assert forall|k: nat| !fs.contains(#[trigger] ancestor_at(par, k)) by {
            assert(ancestor_at(start, (k + 1) as nat) == ancestor_at(par, k));
            assert(!fs.contains(ancestor_at(start, (k + 1) as nat)));
        }
        lemma_search_exhausts(fs, par);
    }
}

/// True when some path in `list` equals `p`.
pub fn path_list_contains(list: &Vec<Vec<u8>>, p: &Vec<u8>) -> (r: bool)
    ensures
        r == path_set(list@).contains(p@),
{
    let mut i: usize = 0;
    while i < list.len()
        invariant
            0 <= i <= list@.len(),
            forall|j: int| 0 <= j < i ==> list@[j]@ != p@,
        decreases list@.len() - i,
    {
        if bytes_eq(&list[i], p) {
            proof {
                assert(exists|j: int| 0 <= j < list@.len() && list@[j]@ == p@) by {
                    assert(list@[i as int]@ == p@);
                }
            }
            return true;
        }
        i = i + 1;
    }
    false
}

/// Runs the whole upward search against a list of the directories that hold
/// the main document, one `ascend_step` at a time.
pub fn search_upward(start: &Vec<u8>, dirs_with_main: &Vec<Vec<u8>>) -> (r: Option<Vec<u8>>)
    requires
        is_absolute(start@),
    ensures
        r is None <==> search_from(path_set(dirs_with_main@), start@) is None,
        r matches Some(v) ==> search_from(path_set(dirs_with_main@), start@) == Some(v@),
{
    let ghost fs = path_set(dirs_with_main@);
    let mut cur = subvec(start, 0, start.len());
    proof {
        assert(cur@ =~= start@);
    }
    loop
        invariant
            fs == path_set(dirs_with_main@),
            is_absolute(cur@),
            search_from(fs, start@) == search_from(fs, cur@),
        decreases cur@.len(),
    {
        let found = path_list_contains(dirs_with_main, &cur);
        proof {
            if !found && !is_fs_root(cur@) {
                lemma_parent_of_absolute(cur@);
                assert(cur@.len() >= 2) by {
                    if cur@.len() == 1 {
                        assert(cur@ =~= seq![SLASH]);
                    }
                }
            }
        }
        match ascend_step(&cur, found) {
            SearchStep::Found(root) => {
                proof {
                    assert(search_from(fs, cur@) == Some(cur@));
                }
                return Some(root);
            },
            SearchStep::Exhausted => {
                proof {
                    assert(cur@ == seq![SLASH]);
                    assert(search_from(fs, cur@) is None);
                }
                return None;
            },
            SearchStep::Ascend(next) => {
                proof {
                    assert(search_from(fs, cur@) == search_from(fs, parent_dir(cur@)));
                }
                cur = next;
            },
        }
    }
}

} // verus!
