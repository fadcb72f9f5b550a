//! Picking the manifest files out of a directory listing.
use vstd::prelude::*;

use crate::package::MANIFEST_EXTENSION;
use crate::text::{ends_with, has_suffix};

verus! {

/// One entry of a directory listing.
#[derive(Debug, Clone)]
pub struct DirEntry {
    /// The entry's path, as the listing gave it.
    pub path: String,
    /// The entry's file name.
    pub name: String,
    /// Whether the entry is a directory.
    pub is_dir: bool,
}

/// A file name that marks a manifest.
pub open spec fn is_manifest_name(name: Seq<char>) -> bool {
    has_suffix(name, MANIFEST_EXTENSION@)
}

/// The paths of the entries named like manifests, in listing order;
/// directories are left out where `files_only` is set.
pub open spec fn paths_where(entries: Seq<DirEntry>, files_only: bool) -> Seq<Seq<char>>
    decreases entries.len(),
{
    if entries.len() == 0 {
        Seq::empty()
    } else {
        let e = entries.last();
        let rest = paths_where(entries.drop_last(), files_only);
        if is_manifest_name(e.name@) && !(files_only && e.is_dir) {
            rest.push(e.path@)
        } else {
            rest
        }
    }
}

/// The views of a sequence of strings.
pub open spec fn views(v: Seq<String>) -> Seq<Seq<char>> {
    v.map_values(|s: String| s@)
}

/// Whether `name` is a manifest's file name.
pub fn is_manifest(name: &str) -> (r: bool)
    ensures
        r == is_manifest_name(name@),
{
    ends_with(name, MANIFEST_EXTENSION)
}

fn select(entries: &Vec<DirEntry>, files_only: bool) -> (r: Vec<String>)
    ensures
        views(r@) == paths_where(entries@, files_only),
{
    let mut out: Vec<String> = Vec::new();
    let mut i: usize = 0;
    while i < entries.len()
        invariant
            i <= entries@.len(),
            views(out@) == paths_where(entries@.subrange(0, i as int), files_only),
        decreases entries@.len() - i,
    {
        let ghost before = out@;
        assert(entries@.subrange(0, i as int + 1).drop_last() =~= entries@.subrange(0, i as int));
        let e = &entries[i];
        if is_manifest(e.name.as_str()) && !(files_only && e.is_dir) {
            out.push(e.path.clone());
            assert(views(out@) =~= views(before).push(e.path@));
        }
        i += 1;
    }
    assert(entries@.subrange(0, entries@.len() as int) =~= entries@);
    out
}

/// The manifests of one package: the paths of the entries that are not
/// directories and whose name ends in the manifest extension, in listing order.
pub fn select_manifests(entries: &Vec<DirEntry>) -> (r: Vec<String>)
    ensures
        views(r@) == paths_where(entries@, true),
{
    select(entries, true)
}

/// The manifests shown when listing packages: the paths of the entries whose
/// name ends in the manifest extension, of any kind, in listing order.
pub fn select_listed(entries: &Vec<DirEntry>) -> (r: Vec<String>)
    ensures
        views(r@) == paths_where(entries@, false),
{
    select(entries, false)
}

} // verus!
