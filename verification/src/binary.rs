//! Finding the `opencode` binary: which files count as executable, where a
//! configured path points, and which candidate wins.

use vstd::prelude::*;
use crate::error::BootError;
use crate::paths::{is_absolute, join, join_path, path_is_absolute};

verus! {

/// What the file system reports of an existing path (symlinks followed).
#[derive(Clone, Copy, PartialEq, Eq, Structural)]
pub struct FileMeta {
    pub is_file: bool,
    /// The Unix permission bits.
    pub mode: u32,
}

/// A path that may hold the binary, with what the file system reported of
/// it (`None` when it does not exist or cannot be inspected).
pub struct CandidateFile {
    pub path: String,
    pub meta: Option<FileMeta>,
}

/// A path holds an executable when it exists, is a regular file, and has an
/// execute bit set for someone.
pub open spec fn is_executable(meta: Option<FileMeta>) -> bool {
    match meta {
        Some(m) => m.is_file && (m.mode & 0o111u32) != 0,
        None => false,
    }
}

/// Whether the path described by `meta` holds an executable.
pub fn executable_exists(meta: Option<FileMeta>) -> (b: bool)
    ensures
        b == is_executable(meta),
{
    match meta {
        Some(m) => m.is_file && (m.mode & 0o111u32) != 0,
        None => false,
    }
}

/// A regular file with any execute bit set (owner, group or others) holds
/// an executable; one with none of them, or anything that is not a regular
/// file, does not.
pub proof fn lemma_any_execute_bit_counts(is_file: bool, mode: u32)
    ensures
        is_file && (mode & 0o100u32) != 0 ==> is_executable(Some(FileMeta { is_file, mode })),
        is_file && (mode & 0o010u32) != 0 ==> is_executable(Some(FileMeta { is_file, mode })),
        is_file && (mode & 0o001u32) != 0 ==> is_executable(Some(FileMeta { is_file, mode })),
        (mode & 0o100u32) == 0 && (mode & 0o010u32) == 0 && (mode & 0o001u32) == 0
            ==> !is_executable(Some(FileMeta { is_file, mode })),
        !is_file ==> !is_executable(Some(FileMeta { is_file, mode })),
        !is_executable(None),
{
    assert((mode & 0o100u32) != 0 ==> (mode & 0o111u32) != 0) by (bit_vector);
    assert((mode & 0o010u32) != 0 ==> (mode & 0o111u32) != 0) by (bit_vector);
    assert((mode & 0o001u32) != 0 ==> (mode & 0o111u32) != 0) by (bit_vector);
    assert((mode & 0o100u32) == 0 && (mode & 0o010u32) == 0 && (mode & 0o001u32) == 0 ==> (mode
        & 0o111u32) == 0) by (bit_vector);
}

/// A configured path whose file is regular and has any execute bit set is
/// launched as it is; one whose file has none is refused with its name.
pub proof fn lemma_configured_executable_accepted(path: Seq<char>, is_file: bool, mode: u32)
    ensures
        is_file && (mode & 0o100u32) != 0 ==> is_executable(Some(FileMeta { is_file, mode })),
        (mode & 0o111u32) == 0 ==> custom_not_executable(path)
            == "Custom OpenCode path is not executable: "@ + path && !is_executable(
            Some(FileMeta { is_file, mode }),
        ),
{
    lemma_any_execute_bit_counts(is_file, mode);
}

/// Where a configured binary path points: as given when absolute, else
/// relative to the working directory (as given when that is unknown).
pub open spec fn custom_location(path: Seq<char>, cwd: Option<Seq<char>>) -> Seq<char> {
    if is_absolute(path) {
        path
    } else {
        match cwd {
            Some(c) => join(c, path),
            None => path,
        }
    }
}

/// Where the configured binary path `path` points, given the working
/// directory.
pub fn custom_candidate(path: &str, cwd: &Option<String>) -> (p: String)
    ensures
        p@ == custom_location(
            path@,
            match *cwd {
                Some(c) => Some(c@),
                None => None,
            },
        ),
{
    if path_is_absolute(path) {
        String::from_str(path)
    } else {
        match cwd {
            Some(c) => join_path(c.as_str(), path),
            None => String::from_str(path),
        }
    }
}

/// The message for a configured path that holds no executable.
pub open spec fn custom_not_executable(path: Seq<char>) -> Seq<char> {
    "Custom OpenCode path is not executable: "@ + path
}

/// The message for a search that found nothing.
pub open spec fn binary_not_found() -> Seq<char> {
    "OpenCode binary not found. Set OPENCODE_BIN or use a custom path."@
}

/// `i` is the first candidate that holds an executable.
pub open spec fn first_executable_at(c: Seq<CandidateFile>, i: int) -> bool {
    &&& 0 <= i < c.len()
    &&& is_executable(c[i].meta)
    &&& forall|j: int| 0 <= j < i ==> !is_executable(#[trigger] c[j].meta)
}

/// There is at most one first executable candidate, and there is one
/// whenever some candidate holds an executable: it is the executable with no
/// executable before it.
pub proof fn lemma_first_executable_unique(c: Seq<CandidateFile>, i: int, j: int)
    ensures
        first_executable_at(c, i) && first_executable_at(c, j) ==> i == j,
        first_executable_at(c, i) ==> forall|k: int| 0 <= k < i ==> !is_executable(#[trigger] c[k].meta),
        (exists|k: int| 0 <= k < c.len() && is_executable(#[trigger] c[k].meta)) ==> exists|k: int|
            #[trigger] first_executable_at(c, k),
{
    if exists|k: int| 0 <= k < c.len() && is_executable(#[trigger] c[k].meta) {
        let k = choose|k: int| 0 <= k < c.len() && is_executable(#[trigger] c[k].meta);
        lemma_first_executable_exists(c, k);
    }
}

proof fn lemma_first_executable_exists(c: Seq<CandidateFile>, k: int)
    requires
        0 <= k < c.len(),
        is_executable(c[k].meta),
    ensures
        exists|m: int| #[trigger] first_executable_at(c, m),
    decreases k,
{
    if exists|j: int| 0 <= j < k && is_executable(#[trigger] c[j].meta) {
        let j = choose|j: int| 0 <= j < k && is_executable(#[trigger] c[j].meta);
        lemma_first_executable_exists(c, j);
    } else {
        assert(first_executable_at(c, k));
    }
}

/// Picks the binary to launch. A configured path (`custom`) is used when it
/// holds an executable and is an error otherwise, without searching;
/// without one, the first of `search` that holds an executable is used, and
/// it is an error when none does.
pub fn resolve_binary(custom: &Option<CandidateFile>, search: &Vec<CandidateFile>) -> (r: Result<
    String,
    BootError,
>)
    ensures
        match *custom {
            Some(c) => if is_executable(c.meta) {
                r matches Ok(p) && p@ == c.path@
            } else {
                r matches Err(e) && e@ == custom_not_executable(c.path@)
            },
            None => match r {
                Ok(p) => exists|i: int| first_executable_at(search@, i) && p@ == search@[i].path@,
                Err(e) => e@ == binary_not_found() && forall|j: int|
                    0 <= j < search@.len() ==> !is_executable(#[trigger] search@[j].meta),
            },
        },
{
    if let Some(c) = custom {
        if executable_exists(c.meta) {
            return Ok(c.path.clone());
        }
        let mut msg = String::from_str("Custom OpenCode path is not executable: ");
        msg.append(c.path.as_str());
        return Err(BootError::Message(msg));
    }
    let mut i: usize = 0;
    while i < search.len()
        invariant
            custom is None,
            i <= search@.len(),
            forall|j: int| 0 <= j < i ==> !is_executable(#[trigger] search@[j].meta),
        decreases search@.len() - i,
    {
        if executable_exists(search[i].meta) {
            assert(first_executable_at(search@, i as int));
            return Ok(search[i].path.clone());
        }
        i = i + 1;
    }
    Err(
        BootError::Message(
            String::from_str("OpenCode binary not found. Set OPENCODE_BIN or use a custom path."),
        ),
    )
}

} // verus!
