//! Planning an install: where the package goes, which override files are
//! fetched and where they land, where the server installer comes from, and
//! what a finished install reports.

use vstd::prelude::*;
use crate::manifest::{Manifest, translation};
use crate::pack::{File, FileView, Pack};
use crate::text::{blank, decimal, decimal_of, is_blank};

verus! {

/// The base location of version descriptors on the remote service.
pub const API_URL: &'static str = "https://api.modpacks.ch/public/modpack/";

/// The platform a server installer is built for.
#[derive(Debug, Clone, Copy, PartialEq, Eq, Structural)]
pub enum Platform {
    Windows,
    Linux,
    Mac,
    Other,
}

/// The path segment of the server installer of a platform; any platform
/// other than the three named ones uses the `freebsd` build.
pub open spec fn platform_key(p: Platform) -> Seq<char> {
    match p {
        Platform::Windows => "windows"@,
        Platform::Linux => "linux"@,
        Platform::Mac => "mac"@,
        Platform::Other => "freebsd"@,
    }
}

/// See [`platform_key`].
pub fn platform_segment(p: Platform) -> (r: &'static str)
    ensures
        r@ == platform_key(p),
{
    match p {
        Platform::Windows => "windows",
        Platform::Linux => "linux",
        Platform::Mac => "mac",
        Platform::Other => "freebsd",
    }
}

/// `<API_URL><pack_id>/<version_id>`.
pub open spec fn descriptor_url_of(pack_id: int, version_id: int) -> Seq<char> {
    API_URL@ + decimal_of(pack_id) + "/"@ + decimal_of(version_id)
}

/// The location of the descriptor of a version of a pack.
pub fn descriptor_url(pack_id: i64, version_id: i64) -> (r: String)
    ensures
        r@ == descriptor_url_of(pack_id as int, version_id as int),
{
    String::from_str(API_URL).concat(decimal(pack_id).as_str()).concat("/").concat(
        decimal(version_id).as_str(),
    )
}

/// The location of the server installer of a version for a platform.
pub fn server_url(pack_id: i64, version_id: i64, platform: Platform) -> (r: String)
    ensures
        r@ == descriptor_url_of(pack_id as int, version_id as int) + "/server/"@ + platform_key(
            platform,
        ),
{
    descriptor_url(pack_id, version_id).concat("/server/").concat(platform_segment(platform))
}

/// `serverinstall_<pack_id>_<version_id>`, with `.exe` on Windows.
pub open spec fn server_file_name_of(pack_id: int, version_id: int, platform: Platform) -> Seq<
    char,
> {
    "serverinstall_"@ + decimal_of(pack_id) + "_"@ + decimal_of(version_id) + if platform
        == Platform::Windows {
        ".exe"@
    } else {
        Seq::empty()
    }
}

/// The file name of the server installer, placed directly under the
/// destination directory.
pub fn server_file_name(pack_id: i64, version_id: i64, platform: Platform) -> (r: String)
    ensures
        r@ == server_file_name_of(pack_id as int, version_id as int, platform),
{
    let base = String::from_str("serverinstall_").concat(decimal(pack_id).as_str()).concat(
        "_",
    ).concat(decimal(version_id).as_str());
    match platform {
        Platform::Windows => base.concat(".exe"),
        _ => {
            assert(base@ =~= base@ + Seq::<char>::empty());
            base
        },
    }
}

/// The name of the package directory: `<display name> <version name>`.
pub fn work_dir_name(display_name: &str, version_name: &str) -> (r: String)
    ensures
        r@ == display_name@ + " "@ + version_name@,
{
    String::from_str(display_name).concat(" ").concat(version_name)
}

/// The name of the directory, inside the package, that holds the overrides.
pub const OVERRIDES_DIR: &'static str = "overrides";

/// One override file to fetch: its body is downloaded from `url` and
/// written to `overrides/<path>/<name>` inside the package directory.
#[derive(Debug, Clone)]
pub struct OverrideFetch {
    pub path: String,
    pub name: String,
    pub url: String,
}

/// Whether a file is fetched as an override: it has a download location
/// that is not blank.
pub open spec fn is_fetched(f: FileView) -> bool {
    f.url is Some && !blank(f.url->0)
}

/// `o` is the fetch of the file `f`: there is one exactly when the file is
/// fetched, and it carries the file's path, name and download location.
pub open spec fn fetch_of(o: Option<OverrideFetch>, f: FileView) -> bool {
    &&& (o is Some <==> is_fetched(f))
    &&& (o matches Some(x) ==> x.path@ == f.path && x.name@ == f.name && x.url@ == f.url->0)
}

/// The fetch of a file, if it is fetched at all. A file without a download
/// location, or with a blank one, gives nothing: no directory and no file.
pub fn override_fetch(file: &File) -> (r: Option<OverrideFetch>)
    ensures
        fetch_of(r, file@),
{
    match &file.url {
        None => None,
        Some(url) => {
            if is_blank(url.as_str()) {
                None
            } else {
                Some(OverrideFetch { path: file.path.clone(), name: file.name.clone(), url: url.clone() })
            }
        },
    }
}

/// Two fetched files with different paths or names land on different
/// targets, so fetching them side by side writes both.
pub proof fn lemma_distinct_entries_distinct_targets(
    a: FileView,
    b: FileView,
    oa: OverrideFetch,
    ob: OverrideFetch,
)
    requires
        a.path != b.path || a.name != b.name,
        fetch_of(Some(oa), a),
        fetch_of(Some(ob), b),
    ensures
        oa.path@ != ob.path@ || oa.name@ != ob.name@,
{
}

/// Everything a client install writes, before any of it is written.
#[derive(Debug)]
pub struct ClientInstall {
    /// The name of the package directory under the destination.
    pub work_dir: String,
    /// The manifest, written first.
    pub manifest: Manifest,
    /// For each file of the version, in order, its fetch if it has one.
    pub fetches: Vec<Option<OverrideFetch>>,
}

/// Plans the client install of `pack`, a version of the pack shown as
/// `display_name`: the package directory `<display name> <version name>`,
/// the manifest of the version, and the fetch of each of its files.
pub fn client_install(display_name: &str, pack: Pack) -> (r: ClientInstall)
    ensures
        r.work_dir@ == display_name@ + " "@ + pack@.name,
        r.manifest@ == translation(pack@),
        r.fetches@.len() == pack@.files.len(),
        forall|i: int|
            0 <= i < r.fetches@.len() ==> fetch_of(#[trigger] r.fetches@[i], pack@.files[i]),
{
    let mut fetches: Vec<Option<OverrideFetch>> = Vec::new();
    let mut i: usize = 0;
    while i < pack.files.len()
        invariant
            i <= pack.files@.len(),
            fetches@.len() == i,
            forall|j: int| 0 <= j < i ==> fetch_of(#[trigger] fetches@[j], pack.files@[j]@),
        decreases pack.files.len() - i,
    {
        fetches.push(override_fetch(&pack.files[i]));
        i = i + 1;
    }
    let work_dir = work_dir_name(display_name, pack.name.as_str());
    let manifest = Manifest::translate(pack);
    ClientInstall { work_dir, manifest, fetches }
}

/// What became of one file of an install.
#[derive(Debug, Clone, Copy, PartialEq, Eq, Structural)]
pub enum FetchOutcome {
    /// The file had no download location to fetch.
    Skipped,
    /// The file was downloaded and written.
    Written,
    /// The download or the write failed; the file is missing.
    Failed,
}

/// How many files of an install ended in each way.
#[derive(Debug, Clone, Copy, PartialEq, Eq, Structural)]
pub struct InstallReport {
    pub written: usize,
    pub failed: usize,
    pub skipped: usize,
}

/// The number of outcomes equal to `o`.
pub open spec fn count_of(s: Seq<FetchOutcome>, o: FetchOutcome) -> nat {
    s.filter(|x: FetchOutcome| x == o).len()
}

/// Counts the outcomes of an install. The install itself is complete
/// whatever they are; the report tells how many files are missing.
pub fn summarize(outcomes: &Vec<FetchOutcome>) -> (r: InstallReport)
    ensures
        r.written == count_of(outcomes@, FetchOutcome::Written),
        r.failed == count_of(outcomes@, FetchOutcome::Failed),
        r.skipped == count_of(outcomes@, FetchOutcome::Skipped),
        r.written + r.failed + r.skipped == outcomes@.len(),
{
    let mut r = InstallReport { written: 0, failed: 0, skipped: 0 };
    let mut i: usize = 0;
    while i < outcomes.len()
        invariant
            i <= outcomes.len(),
            r.written == count_of(outcomes@.subrange(0, i as int), FetchOutcome::Written),
            r.failed == count_of(outcomes@.subrange(0, i as int), FetchOutcome::Failed),
            r.skipped == count_of(outcomes@.subrange(0, i as int), FetchOutcome::Skipped),
            r.written + r.failed + r.skipped == i,
        decreases outcomes.len() - i,
    {
        proof {
            reveal(Seq::filter);
            let s = outcomes@.subrange(0, i + 1);
            assert(s.drop_last() =~= outcomes@.subrange(0, i as int));
            assert(s.last() == outcomes@[i as int]);
        }
        match outcomes[i] {
            FetchOutcome::Written => r.written = r.written + 1,
            FetchOutcome::Failed => r.failed = r.failed + 1,
            FetchOutcome::Skipped => r.skipped = r.skipped + 1,
        }
        i = i + 1;
    }
    assert(outcomes@.subrange(0, outcomes.len() as int) =~= outcomes@);
    r
}

} // verus!
