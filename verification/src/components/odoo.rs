//! Where the Odoo sources come from and where each file of their archive goes.

use crate::archive::{archive_entry_paths, tar_gz_entry_paths};
use crate::components::uv::texts;
use crate::text::{join_path, path_join, strip_first_component, without_first_component};
use vstd::prelude::*;

verus! {

/// Operations on the Odoo sources.
pub struct Odoo;

/// An HTTP request for a source archive.
pub struct SourceRequest {
    pub url: String,
    pub user_agent: String,
}

/// The address of the source archive of an Odoo version.
pub open spec fn source_tarball_url(version: Seq<char>) -> Seq<char> {
    "https://api.github.com/repos/odoo/odoo/tarball/"@ + version
}

/// Where an archive entry is unpacked: its path without the archive's top
/// directory, under `destination`.
pub open spec fn source_entry_destination(destination: Seq<char>, entry: Seq<char>) -> Seq<char> {
    path_join(destination, without_first_component(entry))
}

/// Where each entry of a source archive with these entry paths is unpacked.
pub open spec fn source_destinations(destination: Seq<char>, paths: Seq<Seq<char>>) -> Seq<Seq<char>> {
    paths.map_values(|p: Seq<char>| source_entry_destination(destination, p))
}

impl Odoo {
    /// The request that downloads the sources of `version`.
    pub fn download_source_code(version: &str) -> (r: SourceRequest)
        ensures
            r.url@ == source_tarball_url(version@),
            r.user_agent@ == "OdooPod"@,
    {
        SourceRequest {
            url: String::from_str("https://api.github.com/repos/odoo/odoo/tarball/").concat(version),
            user_agent: String::from_str("OdooPod"),
        }
    }

    /// Where the archive entry at `entry_path` is unpacked.
    pub fn extract_tarball(destination: &str, entry_path: &str) -> (r: String)
        ensures
            r@ == source_entry_destination(destination@, entry_path@),
    {
        let rel: String = strip_first_component(entry_path);
        join_path(destination, rel.as_str())
    }

    /// Where each of the archive entries at `paths` is unpacked, in order.
    pub fn source_destinations_for(destination: &str, paths: &Vec<String>) -> (r: Vec<String>)
        ensures
            texts(r@) == source_destinations(destination@, texts(paths@)),
    {
        let n: usize = paths.len();
        let mut r: Vec<String> = Vec::new();
        let mut i: usize = 0;
        while i < n
            invariant
                n == paths@.len(),
                i <= n,
                texts(r@) == source_destinations(destination@, texts(paths@).take(i as int)),
            decreases n - i,
        {
            let ghost before = r@;
            let d: String = Self::extract_tarball(destination, paths[i].as_str());
            r.push(d);
            proof {
                let pre = texts(paths@).take(i as int);
                assert(texts(paths@).take(i + 1) =~= pre.push(paths@[i as int]@));
                assert(texts(r@) =~= texts(before).push(d@));
                assert(source_destinations(destination@, pre.push(paths@[i as int]@)) =~= source_destinations(
                    destination@,
                    pre,
                ).push(source_entry_destination(destination@, paths@[i as int]@)));
                assert(texts(r@) =~= source_destinations(destination@, texts(paths@).take(i + 1)));
            }
            i = i + 1;
        }
        assert(texts(paths@).take(n as int) =~= texts(paths@));
        r
    }

    /// Where each entry of the source archive `bytes` is unpacked, in
    /// archive order, up to the first entry that cannot be read; and whether
    /// the whole archive could be read.
    pub fn source_unpack_plan(destination: &str, bytes: &[u8]) -> (r: (Vec<String>, bool))
        ensures
            texts(r.0@) == source_destinations(destination@, tar_gz_entry_paths(bytes@).0),
            r.1 == tar_gz_entry_paths(bytes@).1,
    {
        let (paths, complete) = archive_entry_paths(bytes);
        (Self::source_destinations_for(destination, &paths), complete)
    }
}

} // verus!
