//! One directory entry as plain values, and the per-entry rules: how its file
//! type is tagged and how its timestamps become microseconds.

use vstd::prelude::*;

verus! {

/// Time elapsed since the Unix epoch: whole seconds and the nanoseconds beyond.
#[derive(Clone, Copy, PartialEq, Eq, Debug, Structural)]
pub struct EpochOffset {
    pub secs: u64,
    pub nanos: u32,
}

/// What the metadata says of an entry's type.
#[derive(Clone, Copy, PartialEq, Eq, Debug, Structural)]
pub struct FileKind {
    pub is_dir: bool,
    pub is_file: bool,
    pub is_symlink: bool,
}

/// The metadata of one directory entry. A timestamp is `None` where the
/// platform gave none or it lies before the epoch.
pub struct DirentInfo {
    pub basename: String,
    pub path: String,
    pub kind: FileKind,
    pub len: u64,
    pub readonly: bool,
    pub permissions: u32,
    pub created: Option<EpochOffset>,
    pub accessed: Option<EpochOffset>,
    pub modified: Option<EpochOffset>,
}

/// Whole microseconds in an offset, sub-microsecond part dropped.
pub open spec fn offset_micros(d: EpochOffset) -> int {
    d.secs * 1_000_000 + d.nanos / 1000
}

/// The timestamp cell for an optional offset: null where there is none or
/// where the microseconds do not fit an `i64`.
pub open spec fn micros_cell(t: Option<EpochOffset>) -> Option<i64> {
    match t {
        Some(d) => if offset_micros(d) <= i64::MAX {
            Some(offset_micros(d) as i64)
        } else {
            None
        },
        None => None,
    }
}

/// Converts an optional offset since the epoch to microseconds.
pub fn timestamp_micros(t: Option<EpochOffset>) -> (r: Option<i64>)
    ensures
        r == micros_cell(t),
{
    match t {
        Some(d) => {
            let m: u128 = d.secs as u128 * 1_000_000u128 + (d.nanos / 1000) as u128;
            if m <= i64::MAX as u128 {
                Some(m as i64)
            } else {
                None
            }
        },
        None => None,
    }
}

/// The tag of a file type: the first of directory, regular file and
/// symbolic link that holds, else "unknown".
pub open spec fn filetype_of(k: FileKind) -> Seq<char> {
    if k.is_dir {
        "dir"@
    } else if k.is_file {
        "file"@
    } else if k.is_symlink {
        "symlink"@
    } else {
        "unknown"@
    }
}

/// Tags a file type as "dir", "file", "symlink" or "unknown".
pub fn filetype_tag(k: FileKind) -> (r: &'static str)
    ensures
        r@ == filetype_of(k),
{
    if k.is_dir {
        "dir"
    } else if k.is_file {
        "file"
    } else if k.is_symlink {
        "symlink"
    } else {
        "unknown"
    }
}

/// Every file type is tagged "dir", "file", "symlink" or "unknown", and
/// "unknown" exactly when it is neither a directory, a regular file nor a
/// symbolic link.
pub proof fn lemma_filetype_total(k: FileKind)
    ensures
        filetype_of(k) == "dir"@ || filetype_of(k) == "file"@ || filetype_of(k) == "symlink"@
            || filetype_of(k) == "unknown"@,
        filetype_of(k) == "unknown"@ <==> (!k.is_dir && !k.is_file && !k.is_symlink),
{
    reveal_strlit("dir");
    reveal_strlit("file");
    reveal_strlit("symlink");
    reveal_strlit("unknown");
    assert("dir"@.len() != "unknown"@.len());
    assert("file"@.len() != "unknown"@.len());
    assert("symlink"@[0] != "unknown"@[0]);
}

} // verus!
