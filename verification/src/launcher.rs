//! The content-acquisition pipeline: the directory layout of an
//! installation, the download task of each artifact, the local-validity and
//! integrity decisions, and the progress plan of a whole run.
//!
//! Everything here is a decision or a plan over plain values; the caller
//! performs the downloads and file operations the plans call for.

use crate::altarik::{Chapter, CustomVersionManifest};
use crate::altarik::{java_download_needed, mod_verdict_spec, ModVerdict};
use crate::altarik::{sha1_hex_of, sha256_hex_of};
use crate::auth::GameProfile;
use crate::errors::LauncherError;
use crate::manifest::{
    library_applies, retain_applicable_libraries, AssetEntry, AssetObject, AssetsManifest,
    Library, OSName, VersionDetail, VersionType,
};
use crate::progress::{acquisition_plan_view, acquisition_event_plan, ProgressMessage};
use crate::strutil::last_index_of;
use crate::strutil::find_last_char;
use vstd::math::min;
use vstd::prelude::*;
use vstd::string::*;

verus! {

/// What the caller configures for one acquisition run.
pub struct ClientOptions {
    pub authorization: GameProfile,
    pub root_path: String,
    pub java_path: String,
    pub version_number: String,
    pub version_type: VersionType,
    pub memory_min: String,
    pub memory_max: String,
}

/// One acquisition run: the chosen chapter, the resolved version detail and
/// asset index, and the platform the run installs for.
pub struct MinecraftClient {
    pub opts: ClientOptions,
    pub details: VersionDetail,
    pub custom_details: Option<CustomVersionManifest>,
    pub assets: AssetsManifest,
    pub chapter: Chapter,
    pub current_os: OSName,
}

/// The subdirectories prepared under the root before any download.
pub open spec fn required_directories_spec(root: Seq<char>) -> Seq<Seq<char>> {
    seq![
        root + "/libraries"@,
        root + "/assets/objects"@,
        root + "/assets/indexes"@,
        root + "/runtime/download"@,
        root + "/mods"@,
    ]
}

/// Builds the list of directories an installation needs, in creation order.
pub fn required_directories(root: &str) -> (r: Vec<String>)
    ensures
        r.deep_view() == required_directories_spec(root@),
{
    let mut r: Vec<String> = Vec::new();
    let mut s = String::from_str(root);
    s.append("/libraries");
    r.push(s);
    let mut s = String::from_str(root);
    s.append("/assets/objects");
    r.push(s);
    let mut s = String::from_str(root);
    s.append("/assets/indexes");
    r.push(s);
    let mut s = String::from_str(root);
    s.append("/runtime/download");
    r.push(s);
    let mut s = String::from_str(root);
    s.append("/mods");
    r.push(s);
    proof {
        assert(r.deep_view() =~= required_directories_spec(root@));
    }
    r
}

/// The volatile directories wiped and recreated at the start of each run, so
/// no stale file survives a chapter change.
pub open spec fn volatile_directories_spec(root: Seq<char>) -> Seq<Seq<char>> {
    seq![root + "/mods"@, root + "/versions"@]
}

/// Builds the list of volatile directories, in wipe order.
pub fn volatile_directories(root: &str) -> (r: Vec<String>)
    ensures
        r.deep_view() == volatile_directories_spec(root@),
{
    let mut r: Vec<String> = Vec::new();
    let mut s = String::from_str(root);
    s.append("/mods");
    r.push(s);
    let mut s = String::from_str(root);
    s.append("/versions");
    r.push(s);
    proof {
        assert(r.deep_view() =~= volatile_directories_spec(root@));
    }
    r
}

/// Builds the libraries root of an installation.
pub fn libraries_directory(root: &str) -> (r: String)
    ensures
        r@ == root@ + "/libraries"@,
{
    let mut s = String::from_str(root);
    s.append("/libraries");
    proof {
        assert(s@ =~= root@ + "/libraries"@);
    }
    s
}

/// Builds the content-addressed objects root of an installation.
pub fn assets_objects_directory(root: &str) -> (r: String)
    ensures
        r@ == root@ + "/assets/objects"@,
{
    let mut s = String::from_str(root);
    s.append("/assets/objects");
    proof {
        assert(s@ =~= root@ + "/assets/objects"@);
    }
    s
}

/// Where a chapter's mod pack lives under the root.
pub open spec fn modpack_directory_spec(root: Seq<char>, title: Seq<char>) -> Seq<char> {
    root + "/modpack/"@ + title
}

/// Builds the modpack directory of a chapter.
pub fn modpack_directory(root: &str, title: &str) -> (r: String)
    ensures
        r@ == modpack_directory_spec(root@, title@),
{
    let mut s = String::from_str(root);
    s.append("/modpack/");
    s.append(title);
    proof {
        assert(s@ =~= modpack_directory_spec(root@, title@));
    }
    s
}

/// Where the version's asset index document is stored.
pub open spec fn index_file_path_spec(root: Seq<char>, assets_id: Seq<char>) -> Seq<char> {
    root + "/assets/indexes/"@ + assets_id + ".json"@
}

/// Builds the storage path of the asset index document.
pub fn index_file_path(root: &str, assets_id: &str) -> (r: String)
    ensures
        r@ == index_file_path_spec(root@, assets_id@),
{
    let mut s = String::from_str(root);
    s.append("/assets/indexes/");
    s.append(assets_id);
    s.append(".json");
    proof {
        assert(s@ =~= index_file_path_spec(root@, assets_id@));
    }
    s
}

/// The directory part of a library artifact path under the libraries root:
/// everything before the last slash, or the root itself for a bare filename.
pub open spec fn library_dir_spec(lib_root: Seq<char>, artifact_path: Seq<char>) -> Seq<char> {
    let k = last_index_of(artifact_path, '/');
    if k <= 0 {
        lib_root
    } else {
        lib_root + "/"@ + artifact_path.take(k)
    }
}

/// The full storage path of a library artifact: its directory part plus the
/// filename after the last slash.
pub open spec fn library_file_spec(lib_root: Seq<char>, artifact_path: Seq<char>) -> Seq<char> {
    library_dir_spec(lib_root, artifact_path) + "/"@ + artifact_path.skip(
        last_index_of(artifact_path, '/') + 1,
    )
}

/// The download task of one library artifact.
#[derive(Debug)]
pub struct LibraryTask {
    pub name: String,
    pub dir_path: String,
    pub file_path: String,
    pub url: String,
    pub sha_url: String,
    pub size: u64,
    pub sha1: String,
}

/// What the download task of one library must say: where its directory and
/// file live under the libraries root, where to fetch it, where its
/// companion `.sha1` document lives, and what size and SHA-1 the manifest
/// declares.
pub open spec fn is_library_task_for(t: LibraryTask, lib: Library, lib_root: Seq<char>) -> bool {
    &&& t.name@ == lib.name@
    &&& t.dir_path@ == library_dir_spec(lib_root, lib.downloads.artifact.path@)
    &&& t.file_path@ == library_file_spec(lib_root, lib.downloads.artifact.path@)
    &&& t.url@ == lib.downloads.artifact.url@
    &&& t.sha_url@ == lib.downloads.artifact.url@ + ".sha1"@
    &&& t.size == lib.downloads.artifact.size
    &&& t.sha1@ == lib.downloads.artifact.sha1@
}

/// Lays out the download task of one library.
pub fn plan_library(lib: &Library, lib_root: &str) -> (r: LibraryTask)
    ensures
        is_library_task_for(r, *lib, lib_root@),
{
    let path = lib.downloads.artifact.path.as_str();
    let len = path.unicode_len();
    let dir_path = match find_last_char(path, '/') {
        Some(k) => {
            if k == 0 {
                String::from_str(lib_root)
            } else {
                let mut s = String::from_str(lib_root);
                s.append("/");
                s.append(path.substring_char(0, k));
                s
            }
        },
        None => String::from_str(lib_root),
    };
    proof {
        assert(dir_path@ =~= library_dir_spec(lib_root@, lib.downloads.artifact.path@));
    }
    let filename = match find_last_char(path, '/') {
        Some(k) => path.substring_char(k + 1, len),
        None => path,
    };
    proof {
        assert(filename@ =~= lib.downloads.artifact.path@.skip(
            last_index_of(lib.downloads.artifact.path@, '/') + 1,
        ));
    }
    let mut file_path = dir_path.clone();
    file_path.append("/");
    file_path.append(filename);
    proof {
        assert(file_path@ =~= library_file_spec(lib_root@, lib.downloads.artifact.path@));
    }
    let mut sha_url = lib.downloads.artifact.url.clone();
    sha_url.append(".sha1");
    LibraryTask {
        name: lib.name.clone(),
        dir_path,
        file_path,
        url: lib.downloads.artifact.url.clone(),
        sha_url,
        size: lib.downloads.artifact.size,
        sha1: lib.downloads.artifact.sha1.clone(),
    }
}

/// Whether an artifact must be fetched, given the size of the local file (if
/// one exists) and the size the manifest declares: only a local file of
/// exactly the declared size is kept.
pub open spec fn needs_download_spec(local_size: Option<u64>, expected_size: u64) -> bool {
    local_size != Some(expected_size)
}

/// Decides whether an artifact must be fetched.
pub fn needs_download(local_size: Option<u64>, expected_size: u64) -> (r: bool)
    ensures
        r == needs_download_spec(local_size, expected_size),
{
    match local_size {
        Some(s) => s != expected_size,
        None => true,
    }
}

/// Checks a library download against the companion `.sha1` document. A host
/// that serves no such document is tolerated; one that serves a digest other
/// than the manifest's is an integrity violation, always fatal, whatever the
/// local bytes are.
pub fn check_remote_sha1(remote: Option<&String>, expected: &String, artifact: &String) -> (r:
    Result<(), LauncherError>)
    ensures
        (match remote {
            Option::None => r is Ok,
            Option::Some(s) => if s@ == expected@ {
                r is Ok
            } else {
                r matches Err(LauncherError::IntegrityViolation { artifact: a, expected: e, actual: act })
                    && a@ == artifact@ && e@ == expected@ && act@ == s@
            },
        }),
{
    match remote {
        Option::None => Ok(()),
        Option::Some(s) => {
            if *s == *expected {
                Ok(())
            } else {
                Err(
                    LauncherError::IntegrityViolation {
                        artifact: artifact.clone(),
                        expected: expected.clone(),
                        actual: s.clone(),
                    },
                )
            }
        },
    }
}

/// The whole per-library decision: a remote `.sha1` document disagreeing
/// with the manifest is an integrity violation, whatever the local file
/// holds; otherwise the local size alone decides whether to fetch.
pub fn library_fetch_decision(
    local_size: Option<u64>,
    remote_sha1: Option<&String>,
    expected_sha1: &String,
    expected_size: u64,
    artifact: &String,
) -> (r: Result<bool, LauncherError>)
    ensures
        (match remote_sha1 {
            Option::Some(s) => if s@ == expected_sha1@ {
                r is Ok
            } else {
                r matches Err(LauncherError::IntegrityViolation { artifact: a, expected: e, actual: act })
                    && a@ == artifact@ && e@ == expected_sha1@ && act@ == s@
            },
            Option::None => r is Ok,
        }),
        r is Ok ==> r->Ok_0 == needs_download_spec(local_size, expected_size),
{
    match check_remote_sha1(remote_sha1, expected_sha1, artifact) {
        Ok(()) => Ok(needs_download(local_size, expected_size)),
        Err(e) => Err(e),
    }
}

/// The first two characters of an asset hash, which name its directory.
pub open spec fn two_hex_spec(hash: Seq<char>) -> Seq<char> {
    hash.take(min(2, hash.len() as int))
}

/// The download URL of an asset object.
pub open spec fn asset_url_spec(hash: Seq<char>) -> Seq<char> {
    "https://resources.download.minecraft.net/"@ + two_hex_spec(hash) + "/"@ + hash
}

/// The directory of an asset object under the objects root.
pub open spec fn asset_dir_spec(objects_root: Seq<char>, hash: Seq<char>) -> Seq<char> {
    objects_root + "/"@ + two_hex_spec(hash)
}

/// The storage path of an asset object: content-addressed by its hash.
pub open spec fn asset_file_spec(objects_root: Seq<char>, hash: Seq<char>) -> Seq<char> {
    asset_dir_spec(objects_root, hash) + "/"@ + hash
}

/// The download task of one asset object.
#[derive(Debug)]
pub struct AssetTask {
    pub two_hex: String,
    pub dir_path: String,
    pub file_path: String,
    pub url: String,
    pub size: u64,
    pub hash: String,
}

/// What the download task of one asset object must say: its
/// content-addressed directory and path under the objects root, its download
/// URL, and the size the index declares.
pub open spec fn is_asset_task_for(t: AssetTask, obj: AssetObject, objects_root: Seq<char>) -> bool {
    &&& t.two_hex@ == two_hex_spec(obj.hash@)
    &&& t.dir_path@ == asset_dir_spec(objects_root, obj.hash@)
    &&& t.file_path@ == asset_file_spec(objects_root, obj.hash@)
    &&& t.url@ == asset_url_spec(obj.hash@)
    &&& t.size == obj.size
    &&& t.hash@ == obj.hash@
}

/// Lays out the download task of one asset object.
pub fn plan_asset(obj: &AssetObject, objects_root: &str) -> (r: AssetTask)
    ensures
        is_asset_task_for(r, *obj, objects_root@),
{
    let hash = obj.hash.as_str();
    let len = hash.unicode_len();
    let cut = if len < 2 {
        len
    } else {
        2
    };
    let two_hex = String::from_str(hash.substring_char(0, cut));
    proof {
        assert(two_hex@ =~= two_hex_spec(obj.hash@));
    }
    let mut dir_path = String::from_str(objects_root);
    dir_path.append("/");
    dir_path.append(two_hex.as_str());
    proof {
        assert(dir_path@ =~= asset_dir_spec(objects_root@, obj.hash@));
    }
    let mut file_path = dir_path.clone();
    file_path.append("/");
    file_path.append(hash);
    proof {
        assert(file_path@ =~= asset_file_spec(objects_root@, obj.hash@));
    }
    let mut url = String::from_str("https://resources.download.minecraft.net/");
    url.append(two_hex.as_str());
    url.append("/");
    url.append(hash);
    proof {
        assert(url@ =~= asset_url_spec(obj.hash@));
    }
    AssetTask { two_hex, dir_path, file_path, url, size: obj.size, hash: obj.hash.clone() }
}

/// Lays out the download tasks of every library, in manifest order.
pub fn plan_libraries(libraries: &Vec<Library>, lib_root: &str) -> (r: Vec<LibraryTask>)
    ensures
        r@.len() == libraries@.len(),
        forall|i: int|
            0 <= i < r@.len() ==> is_library_task_for(#[trigger] r@[i], libraries@[i], lib_root@),
{
    let n = libraries.len();
    let mut r: Vec<LibraryTask> = Vec::new();
    let mut i: usize = 0;
    while i < n
        invariant
            i <= n,
            n == libraries@.len(),
            r@.len() == i,
            forall|j: int|
                0 <= j < i ==> is_library_task_for(#[trigger] r@[j], libraries@[j], lib_root@),
        decreases n - i,
    {
        r.push(plan_library(&libraries[i], lib_root));
        i = i + 1;
    }
    r
}

/// Lays out the download tasks of every asset object, in index order.
pub fn plan_assets(objects: &Vec<AssetEntry>, objects_root: &str) -> (r: Vec<AssetTask>)
    ensures
        r@.len() == objects@.len(),
        forall|i: int|
            0 <= i < r@.len() ==> is_asset_task_for(
                #[trigger] r@[i],
                objects@[i].object,
                objects_root@,
            ),
{
    let n = objects.len();
    let mut r: Vec<AssetTask> = Vec::new();
    let mut i: usize = 0;
    while i < n
        invariant
            i <= n,
            n == objects@.len(),
            r@.len() == i,
            forall|j: int|
                0 <= j < i ==> is_asset_task_for(
                    #[trigger] r@[j],
                    objects@[j].object,
                    objects_root@,
                ),
        decreases n - i,
    {
        r.push(plan_asset(&objects[i].object, objects_root));
        i = i + 1;
    }
    r
}

impl MinecraftClient {
    /// Assembles a run from its resolved parts.
    pub fn new(
        opts: ClientOptions,
        details: VersionDetail,
        assets: AssetsManifest,
        chapter: Chapter,
        current_os: OSName,
    ) -> (r: MinecraftClient)
        ensures
            r.opts == opts,
            r.details == details,
            r.custom_details is None,
            r.assets == assets,
            r.chapter == chapter,
            r.current_os == current_os,
    {
        MinecraftClient { opts, details, custom_details: None, assets, chapter, current_os }
    }

    /// Drops the libraries that do not apply to the run's platform, keeping
    /// the applicable ones in manifest order. Everything else is unchanged.
    pub fn filter_non_necessary_librairies(&mut self)
        ensures
            final(self).details.libraries@ == old(self).details.libraries@.filter(
                |l: Library| library_applies(l, old(self).current_os),
            ),
            final(self).details == (VersionDetail {
                libraries: final(self).details.libraries,
                ..old(self).details
            }),
            final(self).assets == old(self).assets,
            final(self).chapter == old(self).chapter,
            final(self).current_os == old(self).current_os,
            final(self).opts == old(self).opts,
            final(self).custom_details == old(self).custom_details,
    {
        retain_applicable_libraries(&mut self.details.libraries, self.current_os);
    }

    /// The full progress plan of this run: one java event, one event per mod,
    /// per (already filtered) library and per asset object, and the final
    /// completion event — whether or not any artifact needs a download.
    pub fn acquisition_plan(&self) -> (r: Vec<ProgressMessage>)
        requires
            self.chapter.modspack.mods@.len() + self.details.libraries@.len()
                + self.assets.objects@.len() + 2 <= usize::MAX,
        ensures
            r.deep_view() == acquisition_plan_view(
                self.chapter.modspack.mods@.len() as int,
                self.details.libraries@.len() as int,
                self.assets.objects@.len() as int,
            ),
    {
        acquisition_event_plan(
            self.chapter.modspack.mods.len(),
            self.details.libraries.len(),
            self.assets.objects.len(),
        )
    }
}

/// An installation where every artifact already matches expectations
/// downloads nothing: a library or asset of the declared size is kept, a mod
/// hashing to its declared SHA-1 is kept, and a runtime archive hashing to
/// its declared SHA-256 is kept. The progress plan of a run never depends on
/// these verdicts, so such a run still reports one event per artifact.
pub proof fn lemma_valid_installation_downloads_nothing(
    size: u64,
    mod_content: Seq<u8>,
    mod_expected: Seq<char>,
    java_content: Seq<u8>,
    java_expected: Seq<char>,
)
    ensures
        !needs_download_spec(Some(size), size),
        sha1_hex_of(mod_content) == mod_expected ==> mod_verdict_spec(
            Some(mod_content),
            mod_expected,
        ) == ModVerdict::Keep,
        sha256_hex_of(java_content) == java_expected ==> !java_download_needed(
            Some(java_content),
            java_expected,
        ),
{
}

} // verus!
