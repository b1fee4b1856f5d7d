//! Reading the entry paths of a gzip-compressed tar archive.

use vstd::prelude::*;

verus! {

/// The paths of the entries of the gzip-compressed tar archive `bytes`, in
/// archive order, up to the first entry that cannot be read; and whether
/// the whole archive was read.
pub uninterp spec fn tar_gz_entry_paths(bytes: Seq<u8>) -> (Seq<Seq<char>>, bool);

/// The entry paths of a gzip-compressed tar archive, as text.
///
/// Trusted: decompresses with `flate2::read::GzDecoder` and walks the entries
/// with `tar::Archive::entries` and `tar::Entry::path`, stopping at the first
/// error. The contract names the result: the same bytes give the same paths
/// and the same completeness. Paths that are not UTF-8 are turned into text
/// with replacement characters; which text that is, is left unsaid.
#[verifier::external_body]
pub fn archive_entry_paths(bytes: &[u8]) -> (r: (Vec<String>, bool))
    ensures
        r.0@.map_values(|x: String| x@) == tar_gz_entry_paths(bytes@).0,
        r.1 == tar_gz_entry_paths(bytes@).1,
{
    let mut archive = tar::Archive::new(flate2::read::GzDecoder::new(bytes));
    let mut paths: Vec<String> = Vec::new();
    let Ok(entries) = archive.entries() else { return (paths, false) };
    for entry in entries {
        let Ok(entry) = entry else { return (paths, false) };
        let Ok(path) = entry.path() else { return (paths, false) };
        paths.push(path.to_string_lossy().into_owned());
    }
    (paths, true)
}

} // verus!
