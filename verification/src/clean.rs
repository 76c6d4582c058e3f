//! Selecting which build artifacts a clean build removes from the output
//! directory.
//!
//! Exactly the regular files whose name differs from the output document's
//! are removed: directories are left untouched, and the output document is
//! deliberately spared so a failed rebuild cannot destroy the last good
//! result.

use vstd::prelude::*;

use crate::ascii::{ascii_bytes, bytes_eq, subvec, wrap_bytes};
use crate::logs::Log;

verus! {

/// One entry of the output directory: its file name (not its whole path)
/// and whether it is a regular file.
pub struct DirEntry {
    pub name: Vec<u8>,
    pub is_file: bool,
}

/// An entry is removed exactly when it is a regular file whose name is not
/// the name to keep.
pub open spec fn removable(e: DirEntry, keep: Seq<u8>) -> bool {
    e.is_file && e.name@ != keep
}

/// The names of the entries a clean removes, in the order listed.
pub open spec fn spec_removals(l: Seq<DirEntry>, keep: Seq<u8>) -> Seq<Seq<u8>>
    decreases l.len(),
{
    if l.len() == 0 {
        Seq::empty()
    } else {
        let rest = spec_removals(l.drop_last(), keep);
        if removable(l.last(), keep) {
            rest.push(l.last().name@)
        } else {
            rest
        }
    }
}

/// The entries a clean leaves in place.
pub open spec fn spec_survivors(l: Seq<DirEntry>, keep: Seq<u8>) -> Seq<DirEntry>
    decreases l.len(),
{
    if l.len() == 0 {
        Seq::empty()
    } else {
        let rest = spec_survivors(l.drop_last(), keep);
        if removable(l.last(), keep) {
            rest
        } else {
            rest.push(l.last())
        }
    }
}

/// Cleaning is idempotent: what one clean leaves behind, a second clean
/// removes nothing from.
pub proof fn lemma_clean_idempotent(l: Seq<DirEntry>, keep: Seq<u8>)
    ensures
        spec_removals(spec_survivors(l, keep), keep) == Seq::<Seq<u8>>::empty(),
    decreases l.len(),
{
    if l.len() == 0 {
    } else {
        lemma_clean_idempotent(l.drop_last(), keep);
        let rest = spec_survivors(l.drop_last(), keep);
        if !removable(l.last(), keep) {
            assert(rest.push(l.last()).drop_last() =~= rest);
            assert(rest.push(l.last()).last() == l.last());
        }
    }
}

/// The name to keep is never among the removals.
pub proof fn lemma_kept_name_never_removed(l: Seq<DirEntry>, keep: Seq<u8>)
    ensures
        forall|i: int|
            0 <= i < spec_removals(l, keep).len() ==> #[trigger] spec_removals(l, keep)[i] != keep,
    decreases l.len(),
{
    if l.len() == 0 {
    } else {
        lemma_kept_name_never_removed(l.drop_last(), keep);
        let rest = spec_removals(l.drop_last(), keep);
        assert forall|i: int|
            0 <= i < spec_removals(l, keep).len() implies #[trigger] spec_removals(l, keep)[i]
            != keep by {
            if i < rest.len() {
                assert(spec_removals(l, keep)[i] == rest[i]);
            }
        }
    }
}

/// Picks, from a directory listing, the names of the files a clean removes.
pub fn select_files_to_remove(entries: &Vec<DirEntry>, keep_name: &Vec<u8>) -> (r: Vec<Vec<u8>>)
    ensures
        r@.map_values(|v: Vec<u8>| v@) == spec_removals(entries@, keep_name@),
{
    let mut r: Vec<Vec<u8>> = Vec::new();
    let mut i: usize = 0;
    proof {
        assert(r@.map_values(|v: Vec<u8>| v@) =~= spec_removals(
            entries@.subrange(0, 0),
            keep_name@,
        ));
    }
    while i < entries.len()
        invariant
            0 <= i <= entries@.len(),
            r@.map_values(|v: Vec<u8>| v@) == spec_removals(
                entries@.subrange(0, i as int),
                keep_name@,
            ),
        decreases entries@.len() - i,
    {
        let e = &entries[i];
        proof {
            assert(entries@.subrange(0, i + 1 as int).drop_last() =~= entries@.subrange(
                0,
                i as int,
            ));
            assert(entries@.subrange(0, i + 1 as int).last() == entries@[i as int]);
        }
        if e.is_file && !bytes_eq(&e.name, keep_name) {
            let name = subvec(&e.name, 0, e.name.len());
            proof {
                assert(name@ =~= e.name@);
            }
            r.push(name);
            proof {
                assert(r@.map_values(|v: Vec<u8>| v@) =~= spec_removals(
                    entries@.subrange(0, i + 1 as int),
                    keep_name@,
                ));
            }
        } else {
            proof {
                assert(!removable(entries@[i as int], keep_name@));
            }
        }
        i = i + 1;
    }
    proof {
        assert(entries@.subrange(0, entries@.len() as int) =~= entries@);
    }
    r
}

/// What the file system reported about the output directory.
pub enum DirListing {
    /// The directory does not exist; there is nothing to clean.
    Missing,
    /// The directory exists but its content could not be listed.
    Unreadable(Vec<u8>),
    /// The directory's entries.
    Listed(Vec<DirEntry>),
}

pub open spec fn msg_out_dir_missing(dir: Seq<u8>) -> Seq<u8> {
    ascii_bytes("The output directory `"@) + dir + ascii_bytes(
        "` is missing already. No file was removed."@,
    )
}

pub open spec fn msg_read_dir_failed(dir: Seq<u8>, detail: Seq<u8>) -> Seq<u8> {
    ascii_bytes("An error occurred while reading the content of directory `"@) + dir + ascii_bytes(
        "`:\n"@,
    ) + detail
}

pub open spec fn msg_removing(path: Seq<u8>) -> Seq<u8> {
    ascii_bytes("Removing `"@) + path + ascii_bytes("`"@)
}

pub open spec fn msg_remove_failed(path: Seq<u8>, detail: Seq<u8>) -> Seq<u8> {
    ascii_bytes("An error occurred while removing file `"@) + path + ascii_bytes("`:\n"@) + detail
}

/// The informational text for a clean that found no output directory.
pub fn out_dir_missing_info(dir: &Vec<u8>) -> (r: Vec<u8>)
    ensures
        r@ == msg_out_dir_missing(dir@),
{
    proof {
        reveal_strlit("The output directory `");
        reveal_strlit("` is missing already. No file was removed.");
    }
    wrap_bytes("The output directory `", dir, "` is missing already. No file was removed.")
}

/// The text logged before each removal.
pub fn removing_info(path: &Vec<u8>) -> (r: Vec<u8>)
    ensures
        r@ == msg_removing(path@),
{
    proof {
        reveal_strlit("Removing `");
        reveal_strlit("`");
    }
    wrap_bytes("Removing `", path, "`")
}

/// The text logged when one removal fails; the clean still continues.
pub fn remove_failed_info(path: &Vec<u8>, detail: &Vec<u8>) -> (r: Vec<u8>)
    ensures
        r@ == msg_remove_failed(path@, detail@),
{
    proof {
        reveal_strlit("An error occurred while removing file `");
        reveal_strlit("`:\n");
    }
    let mut m = wrap_bytes("An error occurred while removing file `", path, "`:\n");
    m.extend_from_slice(detail.as_slice());
    proof {
        assert(m@ =~= msg_remove_failed(path@, detail@));
    }
    m
}

/// Decides a whole clean from what the file system reported: a missing
/// directory is a successful no-op, an unlistable one is the only fatal
/// failure, and a listed one yields exactly the removable file names.
pub fn clean_output_directory(out_dir: &Vec<u8>, keep_name: &Vec<u8>, listing: &DirListing) -> (r:
    Result<Vec<Vec<u8>>, Log>)
    ensures
        listing is Missing ==> (r matches Ok(v) && v@.len() == 0),
        listing matches DirListing::Unreadable(d) ==> (r matches Err(Log::FileSystemError(m)) && m@
            == msg_read_dir_failed(out_dir@, d@)),
        listing matches DirListing::Listed(es) ==> (r matches Ok(v) && v@.map_values(
            |v2: Vec<u8>| v2@,
        ) == spec_removals(es@, keep_name@)),
{
    match listing {
        DirListing::Missing => Ok(Vec::new()),
        DirListing::Unreadable(detail) => {
            proof {
                reveal_strlit("An error occurred while reading the content of directory `");
                reveal_strlit("`:\n");
            }
            let mut m = wrap_bytes(
                "An error occurred while reading the content of directory `",
                out_dir,
                "`:\n",
            );
            m.extend_from_slice(detail.as_slice());
            proof {
                assert(m@ =~= msg_read_dir_failed(out_dir@, detail@));
            }
            Err(Log::FileSystemError(m))
        },
        DirListing::Listed(entries) => Ok(select_files_to_remove(entries, keep_name)),
    }
}

} // verus!
