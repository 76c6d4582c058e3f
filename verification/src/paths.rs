//! Plain byte paths with `/` as the separator: file name, parent directory
//! and joining. Paths are taken as written, without normalization; the
//! search over ancestors works on absolute paths, which is what a process's
//! current directory always is.

use vstd::prelude::*;

verus! {

/// The path separator, `/`.
pub const SLASH: u8 = 47;

/// A dot, the current directory `.` as a path of its own.
pub const DOT: u8 = 46;

/// Index of the last separator in `p`, or -1 when `p` has none.
pub open spec fn last_slash_idx(p: Seq<u8>) -> int
    decreases p.len(),
{
    if p.len() == 0 {
        -1
    } else if p[p.len() - 1] == SLASH {
        p.len() - 1
    } else {
        last_slash_idx(p.drop_last())
    }
}

/// What `last_slash_idx` returns: a position in range, holding a separator,
/// with none after it; and -1 only when there is no separator at all.
pub proof fn lemma_last_slash_idx(p: Seq<u8>)
    ensures
        -1 <= last_slash_idx(p) < p.len(),
        last_slash_idx(p) >= 0 ==> p[last_slash_idx(p)] == SLASH,
        forall|j: int| last_slash_idx(p) < j < p.len() ==> p[j] != SLASH,
        (exists|j: int| 0 <= j < p.len() && p[j] == SLASH) ==> last_slash_idx(p) >= 0,
    decreases p.len(),
{
    if p.len() == 0 {
    } else if p[p.len() - 1] == SLASH {
    } else {
        lemma_last_slash_idx(p.drop_last());
        assert(forall|j: int| 0 <= j < p.len() - 1 ==> p.drop_last()[j] == p[j]);
        if exists|j: int| 0 <= j < p.len() && p[j] == SLASH {
            let j0 = choose|j: int| 0 <= j < p.len() && p[j] == SLASH;
            assert(p.drop_last()[j0] == SLASH);
        }
    }
}

/// The position where a separator stands last, and nothing after it is one,
/// is the position `last_slash_idx` names.
pub proof fn lemma_last_slash_idx_unique(p: Seq<u8>, i: int)
    requires
        0 <= i < p.len(),
        p[i] == SLASH,
        forall|j: int| i < j < p.len() ==> p[j] != SLASH,
    ensures
        last_slash_idx(p) == i,
{
    lemma_last_slash_idx(p);
}

/// The bytes after the last separator; the whole path when there is none.
pub open spec fn spec_file_name(p: Seq<u8>) -> Seq<u8> {
    p.subrange(last_slash_idx(p) + 1, p.len() as int)
}

/// The path without its final component: `None` for the file-system root
/// and for the empty path, the empty path for a bare name, the root for a
/// child of the root, and the prefix before the last separator otherwise.
pub open spec fn spec_parent(p: Seq<u8>) -> Option<Seq<u8>> {
    if p.len() == 0 || p == seq![SLASH] {
        None
    } else if last_slash_idx(p) == -1 {
        Some(Seq::empty())
    } else if last_slash_idx(p) == 0 {
        Some(seq![SLASH])
    } else {
        Some(p.subrange(0, last_slash_idx(p)))
    }
}

/// The parent of an absolute path other than the root; the root when no
/// proper prefix remains.
pub open spec fn parent_dir(p: Seq<u8>) -> Seq<u8> {
    if 1 <= last_slash_idx(p) < p.len() {
        p.subrange(0, last_slash_idx(p))
    } else {
        seq![SLASH]
    }
}

/// An absolute path: nonempty, beginning with the separator.
pub open spec fn is_absolute(p: Seq<u8>) -> bool {
    p.len() > 0 && p[0] == SLASH
}

/// The root path, `/`, alone.
pub open spec fn is_fs_root(p: Seq<u8>) -> bool {
    p == seq![SLASH]
}

/// On an absolute path the two parent notions agree, and ascending keeps
/// the path absolute while strictly shortening it.
pub proof fn lemma_parent_of_absolute(p: Seq<u8>)
    requires
        is_absolute(p),
        !is_fs_root(p),
    ensures
        spec_parent(p) == Some(parent_dir(p)),
        is_absolute(parent_dir(p)),
        parent_dir(p).len() < p.len(),
{
    lemma_last_slash_idx(p);
    if p.len() == 1 {
        assert(p =~= seq![SLASH]);
    }
    assert(p.len() >= 2);
    let ls = last_slash_idx(p);
    assert(ls >= 0);
    if ls == 0 {
        assert(parent_dir(p) == seq![SLASH]);
    } else {
        assert(p.subrange(0, ls)[0] == SLASH);
    }
}

/// `dir` and `name` joined with a separator; the separator is left out when
/// `dir` is empty or already ends with one.
pub open spec fn spec_join(dir: Seq<u8>, name: Seq<u8>) -> Seq<u8> {
    if dir.len() == 0 {
        name
    } else if dir[dir.len() - 1] == SLASH {
        dir + name
    } else {
        dir + seq![SLASH] + name
    }
}

/// Position of the last separator of `p`, or `None` when `p` has none.
pub fn last_slash_of(p: &Vec<u8>) -> (r: Option<usize>)
    ensures
        r is None ==> last_slash_idx(p@) == -1,
        r matches Some(i) ==> last_slash_idx(p@) == i as int,
{
    let mut i: usize = p.len();
    while i > 0
        invariant
            0 <= i <= p@.len(),
            forall|j: int| i <= j < p@.len() ==> p@[j] != SLASH,
        decreases i,
    {
        i = i - 1;
        if p[i] == SLASH {
            proof {
                lemma_last_slash_idx_unique(p@, i as int);
            }
            return Some(i);
        }
    }
    proof {
        lemma_last_slash_idx(p@);
    }
    None
}

/// The bytes after the last separator; the whole path when there is none.
pub fn file_name_of(p: &Vec<u8>) -> (r: Vec<u8>)
    ensures
        r@ == spec_file_name(p@),
{
    proof {
        lemma_last_slash_idx(p@);
    }
    match last_slash_of(p) {
        Some(i) => {
            let n = p.len();
            assert(i < n);
            crate::ascii::subvec(p, i + 1, n)
        },
        None => crate::ascii::subvec(p, 0, p.len()),
    }
}

/// The path without its final component, as `spec_parent` states it.
pub fn parent_of(p: &Vec<u8>) -> (r: Option<Vec<u8>>)
    ensures
        r is None <==> spec_parent(p@) is None,
        r matches Some(v) ==> spec_parent(p@) == Some(v@),
{
    if p.len() == 0 {
        return None;
    }
    match last_slash_of(p) {
        None => {
            proof {
                lemma_last_slash_idx(p@);
                if p@ == seq![SLASH] {
                    assert(p@[0] == SLASH);
                }
            }
            Some(Vec::new())
        },
        Some(i) => {
            if i == 0 {
                proof {
                    lemma_last_slash_idx(p@);
                }
                if p.len() == 1 {
                    proof {
                        assert(p@ =~= seq![SLASH]);
                    }
                    None
                } else {
                    let mut v: Vec<u8> = Vec::new();
                    v.push(SLASH);
                    proof {
                        assert(p@ != seq![SLASH]);
                        assert(v@ =~= seq![SLASH]);
                    }
                    Some(v)
                }
            } else {
                proof {
                    lemma_last_slash_idx(p@);
                    assert(p@ != seq![SLASH]) by {
                        assert(last_slash_idx(p@) < p@.len());
                    }
                }
                Some(crate::ascii::subvec(p, 0, i))
            }
        },
    }
}

/// `dir` and `name` joined with a separator, as `spec_join` states it.
pub fn join_path(dir: &Vec<u8>, name: &Vec<u8>) -> (r: Vec<u8>)
    ensures
        r@ == spec_join(dir@, name@),
{
    let mut r = crate::ascii::subvec(dir, 0, dir.len());
    proof {
        assert(r@ =~= dir@);
    }
    if dir.len() > 0 && dir[dir.len() - 1] != SLASH {
        r.push(SLASH);
    }
    r.extend_from_slice(name.as_slice());
    proof {
        assert(r@ =~= spec_join(dir@, name@));
    }
    r
}

} // verus!
