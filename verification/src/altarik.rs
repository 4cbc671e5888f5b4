//! The chapter manifest: named bundles of a game version, a mod set and a
//! Java runtime, together with the integrity decisions of the mod and
//! runtime downloads.

use crate::errors::LauncherError;
use crate::manifest::OSName;
use crate::progress::{progress_message, ProgressMessage, Stage};
use crate::strutil::{dec_seq, usize_to_string};
use sha1::Digest;
use vstd::prelude::*;
use vstd::string::*;

verus! {

/// The chapter manifest: every chapter the launcher offers.
#[derive(Debug)]
pub struct AltarikManifest {
    pub chapters: Vec<Chapter>,
}

/// One installable chapter: a game version plus its mod pack and runtime.
#[derive(Debug)]
pub struct Chapter {
    pub title: String,
    pub description: String,
    pub minecraft_version: String,
    pub mc_type: String,
    pub custom_version: String,
    pub modspack: ModsPack,
    pub java: Java,
}

/// The mod pack of a chapter: download URLs and, in parallel, the expected
/// SHA-1 of each mod file. Index `i` of one array pairs with index `i` of
/// the other.
#[derive(Debug)]
pub struct ModsPack {
    pub mods: Vec<String>,
    pub sha1sum: Vec<String>,
}

/// The runtime section of a chapter.
#[derive(Debug)]
pub struct Java {
    pub platform: JavaPlatform,
}

/// The runtime archives a chapter offers, by platform.
#[derive(Debug)]
pub struct JavaPlatform {
    pub win32: Option<JavaPlatformArch>,
    pub linux: Option<JavaPlatformArch>,
}

/// The runtime archives of one platform, by architecture.
#[derive(Debug, Clone)]
pub struct JavaPlatformArch {
    pub x64: JavaDetails,
}

/// One runtime archive: its name, where to fetch it, and its SHA-256.
#[derive(Debug, Clone)]
pub struct JavaDetails {
    pub name: String,
    pub link: String,
    pub sha256sum: String,
}

/// A custom version detail document (a modded version inheriting from an
/// upstream one).
#[derive(Debug)]
pub struct CustomVersionManifest {
    pub inherits_from: String,
    pub main_class: String,
    pub libraries: Vec<CustomLibrary>,
    pub arguments: CustomArguments,
    pub id: String,
    pub t_type: String,
}

/// One library of a custom version document.
#[derive(Debug, Clone)]
pub struct CustomLibrary {
    pub name: String,
    pub url: String,
}

/// The launch arguments of a custom version document.
#[derive(Debug)]
pub struct CustomArguments {
    pub jvm: Vec<String>,
    pub game: Vec<String>,
}

/// What the sha1 crate's digest returns for these bytes, rendered as
/// lowercase hex.
pub uninterp spec fn sha1_hex_of(bytes: Seq<u8>) -> Seq<char>;

/// Relies on sha1::Sha1 (update, finalize) and its lowercase-hex rendering:
/// the digest is a function of the bytes alone, here named `sha1_hex_of`.
#[verifier::external_body]
fn sha1_hex(bytes: &[u8]) -> (r: String)
    ensures
        r@ == sha1_hex_of(bytes@),
{
    let mut hasher = sha1::Sha1::new();
    hasher.update(bytes);
    format!("{:x}", hasher.finalize())
}

/// What sha256::digest returns for these bytes: the SHA-256 as lowercase hex.
pub uninterp spec fn sha256_hex_of(bytes: Seq<u8>) -> Seq<char>;

/// Relies on sha256::digest: the digest is a function of the bytes alone,
/// here named `sha256_hex_of`.
#[verifier::external_body]
fn sha256_hex(bytes: &[u8]) -> (r: String)
    ensures
        r@ == sha256_hex_of(bytes@),
{
    sha256::digest(bytes)
}

/// What to do about one mod file before the pack is usable.
#[derive(Debug, Clone, Copy, PartialEq, Eq, Structural)]
pub enum ModVerdict {
    /// The local file hashes to the expected SHA-1: keep it, download nothing.
    Keep,
    /// No local file exists: download it.
    Download,
    /// The local file hashes to something else: delete it, then download.
    DeleteAndDownload,
}

/// The verdict for a mod file, given the local content (if a local file
/// exists) and the expected SHA-1 from the chapter manifest.
pub open spec fn mod_verdict_spec(local: Option<Seq<u8>>, expected_sha1: Seq<char>) -> ModVerdict {
    match local {
        Option::None => ModVerdict::Download,
        Option::Some(content) => if sha1_hex_of(content) == expected_sha1 {
            ModVerdict::Keep
        } else {
            ModVerdict::DeleteAndDownload
        },
    }
}

/// A freshly downloaded mod whose bytes hash to the expected SHA-1 settles
/// the matter: checking it again keeps it and downloads nothing.
pub proof fn lemma_mod_redownload_settles(content: Seq<u8>, expected_sha1: Seq<char>)
    requires
        sha1_hex_of(content) == expected_sha1,
    ensures
        mod_verdict_spec(Some(content), expected_sha1) == ModVerdict::Keep,
{
}

/// A download task for one mod file.
#[derive(Debug)]
pub struct ModTask {
    pub url: String,
    pub sha1: String,
    pub file_path: String,
}

/// Where mod `index` of a chapter is stored under the modpack directory.
pub open spec fn mod_file_path_spec(modpack_dir: Seq<char>, index: int) -> Seq<char> {
    modpack_dir + "/modpack"@ + dec_seq(index as nat) + ".zip"@
}

impl ModsPack {
    /// The parallel-array invariant: one SHA-1 per mod URL.
    pub open spec fn wf(&self) -> bool {
        self.mods@.len() == self.sha1sum@.len()
    }

    /// Checks the parallel-array invariant.
    pub fn is_wf(&self) -> (r: bool)
        ensures
            r == self.wf(),
    {
        self.mods.len() == self.sha1sum.len()
    }

    /// Decides what to do about one mod file: a missing file is downloaded,
    /// a file with the right SHA-1 is kept, and a file with any other SHA-1
    /// is deleted and downloaded again — never kept.
    pub fn should_download_mod(local_content: Option<&Vec<u8>>, expected_sha1: &String) -> (r:
        ModVerdict)
        ensures
            r == mod_verdict_spec(
                match local_content {
                    Option::Some(c) => Some(c@),
                    Option::None => None,
                },
                expected_sha1@,
            ),
    {
        match local_content {
            Option::Some(content) => {
                let hash = sha1_hex(content.as_slice());
                if hash == *expected_sha1 {
                    ModVerdict::Keep
                } else {
                    ModVerdict::DeleteAndDownload
                }
            },
            Option::None => ModVerdict::Download,
        }
    }

    /// Lays out the download tasks of the pack: mod `i` is fetched from
    /// `mods[i]`, checked against `sha1sum[i]`, and stored as
    /// `modpack<i>.zip` under the modpack directory. A pack whose two arrays
    /// disagree in length cannot be verified and is refused whole.
    pub fn plan_mods(&self, modpack_dir: &str) -> (r: Result<Vec<ModTask>, LauncherError>)
        ensures
            self.wf() ==> r is Ok,
            !self.wf() ==> r is Err && r->Err_0 is ProtocolError,
            (match r {
                Ok(tasks) => tasks@.len() == self.mods@.len() && forall|i: int|
                    0 <= i < tasks@.len() ==> (#[trigger] tasks@[i]).url@ == self.mods@[i]@
                        && tasks@[i].sha1@ == self.sha1sum@[i]@ && tasks@[i].file_path@
                        == mod_file_path_spec(modpack_dir@, i),
                Err(_) => true,
            }),
    {
        if self.mods.len() != self.sha1sum.len() {
            return Err(
                LauncherError::ProtocolError(
                    String::from_str("mod pack carries a SHA-1 list of another length"),
                ),
            );
        }
        let n = self.mods.len();
        let mut tasks: Vec<ModTask> = Vec::new();
        let mut i: usize = 0;
        while i < n
            invariant
                i <= n,
                n == self.mods@.len(),
                n == self.sha1sum@.len(),
                tasks@.len() == i,
                forall|j: int|
                    0 <= j < i ==> (#[trigger] tasks@[j]).url@ == self.mods@[j]@
                        && tasks@[j].sha1@ == self.sha1sum@[j]@ && tasks@[j].file_path@
                        == mod_file_path_spec(modpack_dir@, j),
            decreases n - i,
        {
            let mut file_path = String::from_str(modpack_dir);
            file_path.append("/modpack");
            let index_str = usize_to_string(i);
            file_path.append(index_str.as_str());
            file_path.append(".zip");
            proof {
                assert(file_path@ =~= mod_file_path_spec(modpack_dir@, i as int));
            }
            let url = self.mods[i].clone();
            let sha1 = self.sha1sum[i].clone();
            tasks.push(ModTask { url, sha1, file_path });
            i = i + 1;
        }
        Ok(tasks)
    }
}

impl JavaPlatform {
    /// Picks the runtime archive for the running platform, and the archive
    /// format that platform uses: a tar.gz on linux, a zip on windows. A
    /// platform with no entry in the chapter has no runtime to offer, and a
    /// platform this launcher does not run on is refused.
    pub fn select_platform(&self, current_os: OSName) -> (r: Result<
        (&JavaPlatformArch, &'static str),
        LauncherError,
    >)
        ensures
            current_os == OSName::Linux ==> (match self.linux {
                Option::Some(a) => r is Ok && *r->Ok_0.0 == a && r->Ok_0.1@ == "tar.gz"@,
                Option::None => r is Err && r->Err_0 is JavaUnavailable,
            }),
            current_os == OSName::Windows ==> (match self.win32 {
                Option::Some(a) => r is Ok && *r->Ok_0.0 == a && r->Ok_0.1@ == "zip"@,
                Option::None => r is Err && r->Err_0 is JavaUnavailable,
            }),
            current_os == OSName::MacOsX ==> r is Err && r->Err_0 is UnsupportedPlatform,
    {
        match current_os {
            OSName::Linux => match &self.linux {
                Option::Some(arch) => Ok((arch, "tar.gz")),
                Option::None => Err(LauncherError::JavaUnavailable),
            },
            OSName::Windows => match &self.win32 {
                Option::Some(arch) => Ok((arch, "zip")),
                Option::None => Err(LauncherError::JavaUnavailable),
            },
            OSName::MacOsX => Err(LauncherError::UnsupportedPlatform),
        }
    }
}

/// Where the runtime archive `name`.`ext` is stored under the root.
pub open spec fn java_archive_path_spec(root: Seq<char>, name: Seq<char>, ext: Seq<char>) -> Seq<
    char,
> {
    root + "/runtime/download/"@ + name + "."@ + ext
}

/// Builds the storage path of a runtime archive.
pub fn java_archive_path(root: &str, name: &str, ext: &str) -> (r: String)
    ensures
        r@ == java_archive_path_spec(root@, name@, ext@),
{
    let mut s = String::from_str(root);
    s.append("/runtime/download/");
    s.append(name);
    s.append(".");
    s.append(ext);
    proof {
        assert(s@ =~= java_archive_path_spec(root@, name@, ext@));
    }
    s
}

/// Where runtime archives are unpacked.
pub fn java_extract_dir(root: &str) -> (r: String)
    ensures
        r@ == root@ + "/runtime"@,
{
    let mut s = String::from_str(root);
    s.append("/runtime");
    proof {
        assert(s@ =~= root@ + "/runtime"@);
    }
    s
}

/// Whether the runtime archive must be downloaded, given the local archive
/// content (if one exists) and the expected SHA-256: only a local archive
/// hashing to exactly the expectation is kept.
pub open spec fn java_download_needed(local: Option<Seq<u8>>, expected_sha256: Seq<char>) -> bool {
    match local {
        Option::None => true,
        Option::Some(content) => sha256_hex_of(content) != expected_sha256,
    }
}

/// Decides whether the runtime archive must be downloaded.
pub fn should_download_java(local_content: Option<&Vec<u8>>, expected_sha256: &String) -> (r: bool)
    ensures
        r == java_download_needed(
            match local_content {
                Option::Some(c) => Some(c@),
                Option::None => None,
            },
            expected_sha256@,
        ),
{
    match local_content {
        Option::Some(content) => {
            let hash = sha256_hex(content.as_slice());
            hash != *expected_sha256
        },
        Option::None => true,
    }
}

/// The percentage reported after `received` of `length` bytes: zero while
/// the length is unknown, never above one hundred.
pub open spec fn java_percent_spec(received: u64, length: u64) -> int {
    if length == 0 {
        0
    } else {
        (received as int) * 100 / (length as int)
    }
}

/// Within the runtime download, the reported percentage never decreases:
/// the byte counter only grows, and the percentage grows with it.
pub proof fn lemma_java_percent_monotonic(received1: u64, received2: u64, length: u64)
    requires
        received1 <= received2,
    ensures
        java_percent_spec(received1, length) <= java_percent_spec(received2, length),
{
    if length != 0 {
        vstd::arithmetic::div_mod::lemma_div_is_ordered(
            (received1 as int) * 100,
            (received2 as int) * 100,
            length as int,
        );
    }
}

/// Tracks a streaming runtime download and renders its progress events.
pub struct JavaDownloadProgress {
    pub received: u64,
    pub length: u64,
}

impl JavaDownloadProgress {
    /// Starts tracking a download of `length` bytes (zero if unknown).
    pub fn new(length: u64) -> (r: JavaDownloadProgress)
        ensures
            r.received == 0,
            r.length == length,
    {
        JavaDownloadProgress { received: 0, length }
    }

    /// Accounts one received chunk and reports the progress so far, as a
    /// percentage out of one hundred. The counter saturates at the announced
    /// length, so the reported percentage never decreases and never exceeds
    /// one hundred.
    pub fn on_chunk(&mut self, chunk_len: usize) -> (r: ProgressMessage)
        ensures
            final(self).length == old(self).length,
            final(self).received == (if old(self).received + chunk_len <= old(self).length {
                old(self).received + chunk_len
            } else {
                old(self).length as int
            }),
            r@.tag == "java"@,
            r@.total == 100,
            r@.current == java_percent_spec(final(self).received, final(self).length),
    {
        let n = chunk_len as u64;
        let remaining = if self.length >= self.received {
            self.length - self.received
        } else {
            0
        };
        if n >= remaining {
            self.received = self.length;
        } else {
            self.received = self.received + n;
        }
        let pct: u64 = if self.length == 0 {
            0
        } else {
            let p: u128 = ((self.received as u128) * 100) / (self.length as u128);
            proof {
                assert(p <= 100) by (nonlinear_arith)
                    requires
                        self.received <= self.length,
                        self.length > 0,
                        p == (self.received as int) * 100 / (self.length as int),
                ;
            }
            p as u64
        };
        progress_message(Stage::Java, pct as usize, 100)
    }
}

} // verus!
