//! Installing `uv`, asking it for its version, and the `uv` command lines
//! that prepare an instance's Python environment.

use crate::archive::{archive_entry_paths, tar_gz_entry_paths};
use crate::search::{first_where, lemma_first_where, lemma_first_where_at};
use crate::text::{
    contains_str, contains_text, occurs_at, file_name, file_name_of, join_path, opt_view, path_join,
    str_eq, trim, trim_str,
};
use vstd::prelude::*;

verus! {

/// Operations that bring `uv` onto the machine.
pub struct UvInstaller;

/// What running `uv --version` in the tools directory gave.
pub enum UvProbe {
    /// The tools directory does not exist.
    Missing,
    /// The command ran to its end.
    Finished { success: bool, stdout: String },
}

/// One downloadable file of a `uv` release.
pub struct ReleaseAsset {
    pub name: String,
    pub browser_download_url: String,
}

/// What asking for the latest `uv` release gave.
pub enum ReleaseFetch {
    /// The request could not be made; the text describes why.
    RequestFailed(String),
    /// The server answered with a status other than success; the text is the status.
    Unsuccessful(String),
    /// The release was described with these assets.
    Published(Vec<ReleaseAsset>),
}

/// What to do after asking for the latest `uv` release.
pub enum UvInstallDecision {
    /// Give up, telling the user this.
    Report(String),
    /// Download and unpack the archive at this address.
    Download(String),
    /// No asset is meant for this platform.
    NothingToDownload,
}

/// The message when `uv` cannot be used yet.
pub open spec fn uv_not_ready() -> Seq<char> {
    "uv is not ready"@
}

/// The version `uv` reports, or why there is none.
pub open spec fn uv_version_of(probe: UvProbe) -> Result<Seq<char>, Seq<char>> {
    match probe {
        UvProbe::Finished { success, stdout } => if success {
            Ok(trim(stdout@))
        } else {
            Err(uv_not_ready())
        },
        UvProbe::Missing => Err(uv_not_ready()),
    }
}

/// The suffix of the release asset built for an operating system and architecture.
pub open spec fn platform_suffix(os: Seq<char>, arch: Seq<char>) -> Option<Seq<char>> {
    if os == "windows"@ && arch == "x86_64"@ {
        Some("x86_64-pc-windows-msvc.zip"@)
    } else if os == "windows"@ && arch == "aarch64"@ {
        Some("aarch64-pc-windows-msvc.zip"@)
    } else if os == "windows"@ && arch == "x86"@ {
        Some("i686-pc-windows-msvc.zip"@)
    } else if os == "macos"@ && arch == "x86_64"@ {
        Some("x86_64-apple-darwin.tar.gz"@)
    } else if os == "macos"@ && arch == "aarch64"@ {
        Some("aarch64-apple-darwin.tar.gz"@)
    } else if os == "linux"@ && arch == "x86_64"@ {
        Some("x86_64-unknown-linux-gnu.tar.gz"@)
    } else if os == "linux"@ && arch == "aarch64"@ {
        Some("aarch64-unknown-linux-gnu.tar.gz"@)
    } else {
        None
    }
}

/// An asset is wanted when its name holds the platform's suffix and it is
/// not a checksum file.
pub open spec fn asset_wanted(name: Seq<char>, os: Seq<char>, arch: Seq<char>) -> bool {
    match platform_suffix(os, arch) {
        Some(sfx) => contains_text(name, sfx) && !contains_text(name, ".sha256"@),
        None => false,
    }
}

/// The index of the first wanted asset, if any.
pub open spec fn first_wanted(assets: Seq<ReleaseAsset>, os: Seq<char>, arch: Seq<char>) -> Option<int> {
    first_where(assets.len() as int, wanted_at(assets, os, arch))
}

/// Whether the asset at an index is wanted.
pub open spec fn wanted_at(assets: Seq<ReleaseAsset>, os: Seq<char>, arch: Seq<char>) -> spec_fn(int) -> bool {
    |i: int| asset_wanted(assets[i].name@, os, arch)
}

/// The address of the first wanted asset, if any.
pub open spec fn wanted_url(assets: Seq<ReleaseAsset>, os: Seq<char>, arch: Seq<char>) -> Option<Seq<char>> {
    match first_wanted(assets, os, arch) {
        Some(i) => Some(assets[i].browser_download_url@),
        None => None,
    }
}

/// The part of a release asset's name that names an architecture.
pub open spec fn arch_marker(arch: Seq<char>) -> Seq<char> {
    if arch == "x86"@ {
        "i686"@
    } else {
        arch
    }
}

/// The part of a release asset's name that names an operating system.
pub open spec fn os_marker(os: Seq<char>) -> Seq<char> {
    if os == "macos"@ {
        "apple-darwin"@
    } else {
        os
    }
}

/// The archive format of the release assets of an operating system.
pub open spec fn archive_ext(os: Seq<char>) -> Seq<char> {
    if os == "windows"@ {
        ".zip"@
    } else {
        ".tar.gz"@
    }
}

/// `s` ends with `t`.
pub open spec fn ends_with(s: Seq<char>, t: Seq<char>) -> bool {
    t.len() <= s.len() && s.subrange(s.len() - t.len(), s.len() as int) == t
}

proof fn lemma_text_at(s: Seq<char>, t: Seq<char>, k: int)
    requires
        0 <= k,
        k + t.len() <= s.len(),
        s.subrange(k, k + t.len()) =~= t,
    ensures
        contains_text(s, t),
        k + t.len() == s.len() ==> ends_with(s, t),
{
    assert(occurs_at(s, t, k));
}

/// Windows, macOS and Linux on x86-64 and ARM64, and Windows on 32-bit x86,
/// have a release asset; its name names that architecture and that system
/// and ends with the system's archive format.
pub proof fn lemma_platform_suffixes(os: Seq<char>, arch: Seq<char>)
    ensures
        ((os == "windows"@ || os == "macos"@ || os == "linux"@) && (arch == "x86_64"@ || arch == "aarch64"@))
            || (os == "windows"@ && arch == "x86"@) ==> platform_suffix(os, arch) is Some,
        platform_suffix(os, arch) matches Some(s) ==> contains_text(s, arch_marker(arch)) && contains_text(
            s,
            os_marker(os),
        ) && ends_with(s, archive_ext(os)),
{
    reveal_strlit(".tar.gz");
    reveal_strlit(".zip");
    reveal_strlit("aarch64");
    reveal_strlit("aarch64-apple-darwin.tar.gz");
    reveal_strlit("aarch64-pc-windows-msvc.zip");
    reveal_strlit("aarch64-unknown-linux-gnu.tar.gz");
    reveal_strlit("apple-darwin");
    reveal_strlit("i686");
    reveal_strlit("i686-pc-windows-msvc.zip");
    reveal_strlit("linux");
    reveal_strlit("macos");
    reveal_strlit("windows");
    reveal_strlit("x86");
    reveal_strlit("x86_64");
    reveal_strlit("x86_64-apple-darwin.tar.gz");
    reveal_strlit("x86_64-pc-windows-msvc.zip");
    reveal_strlit("x86_64-unknown-linux-gnu.tar.gz");
    if os == "windows"@ && arch == "x86_64"@ {
        assert(platform_suffix(os, arch) == Some("x86_64-pc-windows-msvc.zip"@));
        lemma_text_at("x86_64-pc-windows-msvc.zip"@, "x86_64"@, 0);
        lemma_text_at("x86_64-pc-windows-msvc.zip"@, "windows"@, 10);
        lemma_text_at("x86_64-pc-windows-msvc.zip"@, ".zip"@, 22);
    }
    if os == "windows"@ && arch == "aarch64"@ {
        assert(platform_suffix(os, arch) == Some("aarch64-pc-windows-msvc.zip"@));
        lemma_text_at("aarch64-pc-windows-msvc.zip"@, "aarch64"@, 0);
        lemma_text_at("aarch64-pc-windows-msvc.zip"@, "windows"@, 11);
        lemma_text_at("aarch64-pc-windows-msvc.zip"@, ".zip"@, 23);
    }
    if os == "windows"@ && arch == "x86"@ {
        assert(platform_suffix(os, arch) == Some("i686-pc-windows-msvc.zip"@));
        lemma_text_at("i686-pc-windows-msvc.zip"@, "i686"@, 0);
        lemma_text_at("i686-pc-windows-msvc.zip"@, "windows"@, 8);
        lemma_text_at("i686-pc-windows-msvc.zip"@, ".zip"@, 20);
    }
    if os == "macos"@ && arch == "x86_64"@ {
        assert(platform_suffix(os, arch) == Some("x86_64-apple-darwin.tar.gz"@));
        lemma_text_at("x86_64-apple-darwin.tar.gz"@, "x86_64"@, 0);
        lemma_text_at("x86_64-apple-darwin.tar.gz"@, "apple-darwin"@, 7);
        lemma_text_at("x86_64-apple-darwin.tar.gz"@, ".tar.gz"@, 19);
    }
    if os == "macos"@ && arch == "aarch64"@ {
        assert(platform_suffix(os, arch) == Some("aarch64-apple-darwin.tar.gz"@));
        lemma_text_at("aarch64-apple-darwin.tar.gz"@, "aarch64"@, 0);
        lemma_text_at("aarch64-apple-darwin.tar.gz"@, "apple-darwin"@, 8);
        lemma_text_at("aarch64-apple-darwin.tar.gz"@, ".tar.gz"@, 20);
    }
    assert("linux"@.len() != "windows"@.len());
    assert("linux"@[0] != "macos"@[0]);
    if os == "linux"@ && arch == "x86_64"@ {
        assert(platform_suffix(os, arch) == Some("x86_64-unknown-linux-gnu.tar.gz"@));
        lemma_text_at("x86_64-unknown-linux-gnu.tar.gz"@, "x86_64"@, 0);
        lemma_text_at("x86_64-unknown-linux-gnu.tar.gz"@, "linux"@, 15);
        lemma_text_at("x86_64-unknown-linux-gnu.tar.gz"@, ".tar.gz"@, 24);
    }
    if os == "linux"@ && arch == "aarch64"@ {
        assert(platform_suffix(os, arch) == Some("aarch64-unknown-linux-gnu.tar.gz"@));
        lemma_text_at("aarch64-unknown-linux-gnu.tar.gz"@, "aarch64"@, 0);
        lemma_text_at("aarch64-unknown-linux-gnu.tar.gz"@, "linux"@, 16);
        lemma_text_at("aarch64-unknown-linux-gnu.tar.gz"@, ".tar.gz"@, 25);
    }
}

/// Whether an asset name is meant for the platform with suffix `sfx`: it
/// holds the suffix and is not a checksum file.
pub open spec fn fits_platform(name: Seq<char>, sfx: Seq<char>) -> bool {
    contains_text(name, sfx) && !contains_text(name, ".sha256"@)
}

/// On a platform with an asset suffix, the address chosen is that of the
/// first asset whose name holds the suffix and is not a checksum file, and
/// there is one exactly when some asset is such; on a platform without a
/// suffix nothing is chosen.
pub proof fn lemma_wanted_url(assets: Seq<ReleaseAsset>, os: Seq<char>, arch: Seq<char>)
    ensures
        platform_suffix(os, arch) is None ==> wanted_url(assets, os, arch) is None,
        platform_suffix(os, arch) matches Some(sfx) ==> (wanted_url(assets, os, arch) is Some <==> exists|i: int|
            0 <= i < assets.len() && fits_platform(#[trigger] assets[i].name@, sfx)),
        platform_suffix(os, arch) matches Some(sfx) ==> (wanted_url(assets, os, arch) matches Some(u) ==> exists|k: int|
            0 <= k < assets.len() && u == assets[k].browser_download_url@ && fits_platform(
                #[trigger] assets[k].name@,
                sfx,
            ) && forall|j: int| 0 <= j < k ==> !fits_platform(#[trigger] assets[j].name@, sfx)),
{
    let p = wanted_at(assets, os, arch);
    lemma_first_where(assets.len() as int, p);
    if let Some(sfx) = platform_suffix(os, arch) {
        if exists|i: int| 0 <= i < assets.len() && fits_platform(#[trigger] assets[i].name@, sfx) {
            let i = choose|i: int| 0 <= i < assets.len() && fits_platform(#[trigger] assets[i].name@, sfx);
            assert(p(i));
        }
        if let Some(k) = first_wanted(assets, os, arch) {
            assert(p(k));
            assert forall|j: int| 0 <= j < k implies !fits_platform(#[trigger] assets[j].name@, sfx) by {
                assert(!p(j));
            }
        }
    } else {
        if let Some(k) = first_wanted(assets, os, arch) {
            assert(p(k));
        }
    }
}

/// What to do with the answer to the release request.
pub open spec fn install_decision(fetch: ReleaseFetch, os: Seq<char>, arch: Seq<char>) -> Result<Option<Seq<char>>, Seq<char>> {
    match fetch {
        ReleaseFetch::RequestFailed(e) => Err(
            "An error occurred while fetching the latest version of uv: "@ + e@,
        ),
        ReleaseFetch::Unsuccessful(status) => Err(
            "Failed to fetch latest uv release metadata. HTTP status: "@ + status@,
        ),
        ReleaseFetch::Published(assets) => Ok(wanted_url(assets@, os, arch)),
    }
}

/// The decision as plain values: a report, or the address to download if any.
pub open spec fn decision_view(d: UvInstallDecision) -> Result<Option<Seq<char>>, Seq<char>> {
    match d {
        UvInstallDecision::Report(m) => Err(m@),
        UvInstallDecision::Download(u) => Ok(Some(u@)),
        UvInstallDecision::NothingToDownload => Ok(None),
    }
}

/// Where an archive entry is unpacked: entries named `uv` or `uv.exe` go
/// into the tools directory under their own name, others are skipped.
pub open spec fn uv_entry_destination(uv_path: Seq<char>, entry: Seq<char>) -> Option<Seq<char>> {
    let name = file_name_of(entry)->0;
    if name == "uv"@ || name == "uv.exe"@ {
        Some(path_join(uv_path, name))
    } else {
        None
    }
}

/// What to do with one entry of the `uv` archive.
pub enum UvEntryPlan {
    /// Unpack it to this path.
    Unpack(String),
    /// Leave it.
    Skip,
    /// The entry's path has no file name: the archive is refused here.
    NoFileName,
}

/// The plan for one entry as plain values: nothing when its path has no file
/// name, else where it is unpacked if it is unpacked.
pub open spec fn uv_entry_step(uv_path: Seq<char>, entry: Seq<char>) -> Option<Option<Seq<char>>> {
    if file_name_of(entry) is None {
        None
    } else {
        Some(uv_entry_destination(uv_path, entry))
    }
}

/// A plan as plain values.
pub open spec fn entry_plan_view(p: UvEntryPlan) -> Option<Option<Seq<char>>> {
    match p {
        UvEntryPlan::Unpack(d) => Some(Some(d@)),
        UvEntryPlan::Skip => Some(None),
        UvEntryPlan::NoFileName => None,
    }
}

/// The plans for archive entries with these paths.
pub open spec fn uv_entry_steps(uv_path: Seq<char>, paths: Seq<Seq<char>>) -> Seq<Option<Option<Seq<char>>>> {
    paths.map_values(|p: Seq<char>| uv_entry_step(uv_path, p))
}

impl UvInstaller {
    /// The version of the installed `uv`: the trimmed output of
    /// `uv --version` when it succeeded.
    pub fn get_current_uv_version(probe: &UvProbe) -> (r: Result<String, String>)
        ensures
            match (r, uv_version_of(*probe)) {
                (Ok(v), Ok(w)) => v@ == w,
                (Err(e), Err(f)) => e@ == f,
                _ => false,
            },
    {
        match probe {
            UvProbe::Finished { success, stdout } => {
                if *success {
                    Ok(trim_str(stdout.as_str()))
                } else {
                    Err(String::from_str("uv is not ready"))
                }
            },
            UvProbe::Missing => Err(String::from_str("uv is not ready")),
        }
    }

    /// The suffix of the release asset built for `os` and `arch`.
    pub fn platform_asset_suffix(os: &str, arch: &str) -> (r: Option<&'static str>)
        ensures
            match (r, platform_suffix(os@, arch@)) {
                (Some(s), Some(t)) => s@ == t,
                (None, None) => true,
                _ => false,
            },
    {
        if str_eq(os, "windows") && str_eq(arch, "x86_64") {
            Some("x86_64-pc-windows-msvc.zip")
        } else if str_eq(os, "windows") && str_eq(arch, "aarch64") {
            Some("aarch64-pc-windows-msvc.zip")
        } else if str_eq(os, "windows") && str_eq(arch, "x86") {
            Some("i686-pc-windows-msvc.zip")
        } else if str_eq(os, "macos") && str_eq(arch, "x86_64") {
            Some("x86_64-apple-darwin.tar.gz")
        } else if str_eq(os, "macos") && str_eq(arch, "aarch64") {
            Some("aarch64-apple-darwin.tar.gz")
        } else if str_eq(os, "linux") && str_eq(arch, "x86_64") {
            Some("x86_64-unknown-linux-gnu.tar.gz")
        } else if str_eq(os, "linux") && str_eq(arch, "aarch64") {
            Some("aarch64-unknown-linux-gnu.tar.gz")
        } else {
            None
        }
    }

    /// The address of the first asset built for `os` and `arch` that is not
    /// a checksum file.
    pub fn select_asset(assets: &Vec<ReleaseAsset>, os: &str, arch: &str) -> (r: Option<String>)
        ensures
            opt_view(r) == wanted_url(assets@, os@, arch@),
    {
        let suffix = Self::platform_asset_suffix(os, arch);
        let n: usize = assets.len();
        let mut i: usize = 0;
        while i < n
            invariant
                n == assets@.len(),
                i <= n,
                match (suffix, platform_suffix(os@, arch@)) {
                    (Some(s), Some(t)) => s@ == t,
                    (None, None) => true,
                    _ => false,
                },
                forall|j: int| 0 <= j < i ==> !asset_wanted(#[trigger] assets@[j].name@, os@, arch@),
            decreases n - i,
        {
            let name: &str = assets[i].name.as_str();
            let wanted: bool = match suffix {
                Some(sfx) => contains_str(name, sfx) && !contains_str(name, ".sha256"),
                None => false,
            };
            if wanted {
                assert(asset_wanted(assets@[i as int].name@, os@, arch@));
                proof {
                    lemma_first_where_at(assets@.len() as int, wanted_at(assets@, os@, arch@), i as int);
                }
                return Some(assets[i].browser_download_url.clone());
            }
            i = i + 1;
        }
        None
    }

    /// What to do with the answer to the request for the latest release.
    pub fn install_uv(fetch: &ReleaseFetch, os: &str, arch: &str) -> (r: UvInstallDecision)
        ensures
            decision_view(r) == install_decision(*fetch, os@, arch@),
    {
        match fetch {
            ReleaseFetch::RequestFailed(e) => UvInstallDecision::Report(
                String::from_str("An error occurred while fetching the latest version of uv: ").concat(e.as_str()),
            ),
            ReleaseFetch::Unsuccessful(status) => UvInstallDecision::Report(
                String::from_str("Failed to fetch latest uv release metadata. HTTP status: ").concat(status.as_str()),
            ),
            ReleaseFetch::Published(assets) => match Self::select_asset(assets, os, arch) {
                Some(url) => UvInstallDecision::Download(url),
                None => UvInstallDecision::NothingToDownload,
            },
        }
    }

    /// Where an entry of the `uv` archive is unpacked, if it is one of the
    /// `uv` binaries.
    pub fn extract_destination(uv_path: &str, entry_path: &str) -> (r: Option<String>)
        requires
            file_name_of(entry_path@) is Some,
        ensures
            opt_view(r) == uv_entry_destination(uv_path@, entry_path@),
    {
        let name: String = match file_name(entry_path) {
            Some(n) => n,
            None => String::new(),
        };
        if str_eq(name.as_str(), "uv") || str_eq(name.as_str(), "uv.exe") {
            Some(join_path(uv_path, name.as_str()))
        } else {
            None
        }
    }
}
impl UvInstaller {
    /// What to do with the `uv` archive entry at `entry_path`.
    pub fn entry_plan(uv_path: &str, entry_path: &str) -> (r: UvEntryPlan)
        ensures
            entry_plan_view(r) == uv_entry_step(uv_path@, entry_path@),
    {
        match file_name(entry_path) {
            None => UvEntryPlan::NoFileName,
            Some(_) => match Self::extract_destination(uv_path, entry_path) {
                Some(d) => UvEntryPlan::Unpack(d),
                None => UvEntryPlan::Skip,
            },
        }
    }

    /// What to do with each of the `uv` archive entries at `paths`, in order.
    pub fn entry_plans_for(uv_path: &str, paths: &Vec<String>) -> (r: Vec<UvEntryPlan>)
        ensures
            r@.map_values(|p: UvEntryPlan| entry_plan_view(p)) == uv_entry_steps(uv_path@, texts(paths@)),
    {
        let n: usize = paths.len();
        let mut r: Vec<UvEntryPlan> = Vec::new();
        let mut i: usize = 0;
        while i < n
            invariant
                n == paths@.len(),
                i <= n,
                r@.map_values(|p: UvEntryPlan| entry_plan_view(p)) == uv_entry_steps(uv_path@, texts(paths@).take(i as int)),
            decreases n - i,
        {
            let ghost before = r@;
            let e: UvEntryPlan = Self::entry_plan(uv_path, paths[i].as_str());
            let ghost ev = entry_plan_view(e);
            r.push(e);
            proof {
                let pre = texts(paths@).take(i as int);
                assert(texts(paths@).take(i + 1) =~= pre.push(paths@[i as int]@));
                assert(r@.map_values(|p: UvEntryPlan| entry_plan_view(p)) =~= before.map_values(
                    |p: UvEntryPlan| entry_plan_view(p),
                ).push(ev));
                assert(uv_entry_steps(uv_path@, pre.push(paths@[i as int]@)) =~= uv_entry_steps(uv_path@, pre).push(
                    uv_entry_step(uv_path@, paths@[i as int]@),
                ));
                assert(r@.map_values(|p: UvEntryPlan| entry_plan_view(p)) =~= uv_entry_steps(uv_path@, texts(paths@).take(i + 1)));
            }
            i = i + 1;
        }
        assert(texts(paths@).take(n as int) =~= texts(paths@));
        r
    }

    /// What to do with each entry of the `uv` archive `bytes`, in archive
    /// order, up to the first entry that cannot be read; and whether the
    /// whole archive could be read.
    pub fn uv_unpack_plan(uv_path: &str, bytes: &[u8]) -> (r: (Vec<UvEntryPlan>, bool))
        ensures
            r.0@.map_values(|p: UvEntryPlan| entry_plan_view(p)) == uv_entry_steps(uv_path@, tar_gz_entry_paths(bytes@).0),
            r.1 == tar_gz_entry_paths(bytes@).1,
    {
        let (paths, complete) = archive_entry_paths(bytes);
        (Self::entry_plans_for(uv_path, &paths), complete)
    }
}



/// A `uv` installation in a tools directory.
pub struct UvInstance {
    uv_path: String,
}

/// A program run with arguments and extra environment variables.
pub struct UvCommand {
    pub program: String,
    pub args: Vec<String>,
    pub envs: Vec<(String, String)>,
}

/// How a command that ran to its end finished.
pub struct CommandOutput {
    pub success: bool,
    pub stderr: String,
}

/// The texts of a list of strings.
pub open spec fn texts(v: Seq<String>) -> Seq<Seq<char>> {
    v.map_values(|x: String| x@)
}

/// The texts of a list of name/value pairs.
pub open spec fn pair_texts(v: Seq<(String, String)>) -> Seq<(Seq<char>, Seq<char>)> {
    v.map_values(|x: (String, String)| (x.0@, x.1@))
}

/// The outcome of a `uv` command: the failure to run it passes through;
/// a run that did not succeed fails with `prefix` followed by its error output.
pub open spec fn command_outcome(run: Result<CommandOutput, String>, prefix: Seq<char>) -> Result<(), Seq<char>> {
    match run {
        Err(e) => Err(e@),
        Ok(out) => if out.success {
            Ok(())
        } else {
            Err(prefix + out.stderr@)
        },
    }
}

/// The plain form of a `Result<(), String>`.
pub open spec fn unit_result_view(r: Result<(), String>) -> Result<(), Seq<char>> {
    match r {
        Ok(()) => Ok(()),
        Err(e) => Err(e@),
    }
}

fn outcome(run: &Result<CommandOutput, String>, prefix: String) -> (r: Result<(), String>)
    ensures
        unit_result_view(r) == command_outcome(*run, prefix@),
{
    match run {
        Err(e) => Err(e.clone()),
        Ok(out) => if out.success {
            Ok(())
        } else {
            Err(prefix.concat(out.stderr.as_str()))
        },
    }
}

fn owned(s: &str) -> (r: String)
    ensures
        r@ == s@,
{
    String::from_str(s)
}

impl UvInstance {
    /// The tools directory that holds the `uv` binary.
    pub closed spec fn dir(&self) -> Seq<char> {
        self.uv_path@
    }

    /// The path of the `uv` binary.
    pub open spec fn program_path(&self) -> Seq<char> {
        path_join(self.dir(), "uv"@)
    }

    /// A `uv` installation in the directory `uv_path`.
    pub fn new(uv_path: String) -> (r: Self)
        ensures
            r.dir() == uv_path@,
    {
        UvInstance { uv_path }
    }

    /// The tools directory that holds the `uv` binary.
    pub fn uv_path(&self) -> (r: &str)
        ensures
            r@ == self.dir(),
    {
        self.uv_path.as_str()
    }

    fn program(&self) -> (r: String)
        ensures
            r@ == self.program_path(),
    {
        join_path(self.uv_path.as_str(), "uv")
    }

    /// `uv python install <version>`.
    pub fn install_python_version_command(&self, python_version: &str) -> (r: UvCommand)
        ensures
            r.program@ == self.program_path(),
            texts(r.args@) == seq!["python"@, "install"@, python_version@],
            r.envs@.len() == 0,
    {
        let args: Vec<String> = vec![owned("python"), owned("install"), owned(python_version)];
        assert(texts(args@) =~= seq!["python"@, "install"@, python_version@]);
        UvCommand { program: self.program(), args, envs: Vec::new() }
    }

    /// The outcome of installing a Python version.
    pub fn install_python_version(&self, python_version: &str, run: &Result<CommandOutput, String>) -> (r: Result<(), String>)
        ensures
            unit_result_view(r) == command_outcome(
                *run,
                "Failed to install python version "@ + python_version@ + ": "@,
            ),
    {
        let prefix: String = owned("Failed to install python version ").concat(python_version).concat(": ");
        outcome(run, prefix)
    }

    /// `uv venv --python <version> <venv_path>`.
    pub fn create_venv_command(&self, python_version: &str, venv_path: &str) -> (r: UvCommand)
        ensures
            r.program@ == self.program_path(),
            texts(r.args@) == seq!["venv"@, "--python"@, python_version@, venv_path@],
            r.envs@.len() == 0,
    {
        let args: Vec<String> = vec![owned("venv"), owned("--python"), owned(python_version), owned(venv_path)];
        assert(texts(args@) =~= seq!["venv"@, "--python"@, python_version@, venv_path@]);
        UvCommand { program: self.program(), args, envs: Vec::new() }
    }

    /// The outcome of creating a virtual environment.
    pub fn create_venv(&self, run: &Result<CommandOutput, String>) -> (r: Result<(), String>)
        ensures
            unit_result_view(r) == command_outcome(*run, "Failed to create virtual environment: "@),
    {
        outcome(run, owned("Failed to create virtual environment: "))
    }

    /// `uv pip install --no-cache -r <requirements>` inside the virtual environment.
    pub fn pip_install_requirements_command(&self, venv_path: &str, requirements_path: &str) -> (r: UvCommand)
        ensures
            r.program@ == self.program_path(),
            texts(r.args@) == seq!["pip"@, "install"@, "--no-cache"@, "-r"@, requirements_path@],
            pair_texts(r.envs@) == seq![("VIRTUAL_ENV"@, venv_path@)],
    {
        let args: Vec<String> = vec![owned("pip"), owned("install"), owned("--no-cache"), owned("-r"), owned(requirements_path)];
        let envs: Vec<(String, String)> = vec![(owned("VIRTUAL_ENV"), owned(venv_path))];
        assert(texts(args@) =~= seq!["pip"@, "install"@, "--no-cache"@, "-r"@, requirements_path@]);
        assert(pair_texts(envs@) =~= seq![("VIRTUAL_ENV"@, venv_path@)]);
        UvCommand { program: self.program(), args, envs }
    }

    /// The outcome of installing the requirements file.
    pub fn pip_install_requirements(&self, run: &Result<CommandOutput, String>) -> (r: Result<(), String>)
        ensures
            unit_result_view(r) == command_outcome(*run, "Failed to install requirements: "@),
    {
        outcome(run, owned("Failed to install requirements: "))
    }

    /// `uv pip install <package> --only-binary=:all` inside the virtual environment.
    pub fn pip_install_command(&self, venv_path: &str, package: &str) -> (r: UvCommand)
        ensures
            r.program@ == self.program_path(),
            texts(r.args@) == seq!["pip"@, "install"@, package@, "--only-binary=:all"@],
            pair_texts(r.envs@) == seq![("VIRTUAL_ENV"@, venv_path@)],
    {
        let args: Vec<String> = vec![owned("pip"), owned("install"), owned(package), owned("--only-binary=:all")];
        let envs: Vec<(String, String)> = vec![(owned("VIRTUAL_ENV"), owned(venv_path))];
        assert(texts(args@) =~= seq!["pip"@, "install"@, package@, "--only-binary=:all"@]);
        assert(pair_texts(envs@) =~= seq![("VIRTUAL_ENV"@, venv_path@)]);
        UvCommand { program: self.program(), args, envs }
    }

    /// The outcome of installing one package.
    pub fn pip_install(&self, package: &str, run: &Result<CommandOutput, String>) -> (r: Result<(), String>)
        ensures
            unit_result_view(r) == command_outcome(
                *run,
                "Failed to install package "@ + package@ + ": "@,
            ),
    {
        let prefix: String = owned("Failed to install package ").concat(package).concat(": ");
        outcome(run, prefix)
    }
}

} // verus!
