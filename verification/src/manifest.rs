//! The upstream version manifest: the index of game versions, the per-version
//! detail document, and the asset index, together with the platform filter
//! that decides which libraries apply to the running machine.

use crate::errors::LauncherError;
use vstd::prelude::*;
use vstd::string::*;

verus! {

/// The release channel of a game version.
#[derive(Debug, Clone, Copy, PartialEq, Eq, Structural)]
pub enum VersionType {
    Release,
    Snapshot,
    OldAlpha,
    OldBeta,
}

/// An operating system named by a library rule.
#[derive(Debug, Clone, Copy, PartialEq, Eq, Structural)]
pub enum OSName {
    MacOsX,
    Linux,
    Windows,
}

impl OSName {
    /// The wire name of the platform.
    pub open spec fn tag_spec(self) -> Seq<char> {
        match self {
            OSName::MacOsX => "osx"@,
            OSName::Linux => "linux"@,
            OSName::Windows => "windows"@,
        }
    }

    /// Serializes the platform to its wire name.
    pub fn tag(&self) -> (r: &'static str)
        ensures
            r@ == self.tag_spec(),
    {
        match self {
            OSName::MacOsX => "osx",
            OSName::Linux => "linux",
            OSName::Windows => "windows",
        }
    }
}

/// The newest version of each channel, as the manifest index reports it.
#[derive(Debug, Clone)]
pub struct LatestVersions {
    pub release: String,
    pub snapshot: String,
}

/// One entry of the version manifest index.
#[derive(Debug, Clone)]
pub struct Version {
    pub id: String,
    pub v_type: VersionType,
    pub url: String,
    pub sha1: String,
}

/// The version manifest index: every published game version.
#[derive(Debug)]
pub struct VersionManifestV2 {
    pub latest: LatestVersions,
    pub versions: Vec<Version>,
}

/// The downloadable artifact of a library.
#[derive(Debug, Clone)]
pub struct LibraryArtifact {
    pub path: String,
    pub sha1: String,
    pub size: u64,
    pub url: String,
}

/// The download section of a library entry.
#[derive(Debug, Clone)]
pub struct LibraryDownload {
    pub artifact: LibraryArtifact,
}

/// The platform condition of a library rule.
#[derive(Debug, Clone, Copy)]
pub struct LibraryOSRule {
    pub name: OSName,
}

/// One applicability rule: an action ("allow" or "disallow") for a platform.
#[derive(Debug, Clone)]
pub struct LibraryRule {
    pub action: String,
    pub os: LibraryOSRule,
}

/// One library of a version's detail document.
#[derive(Debug)]
pub struct Library {
    pub downloads: LibraryDownload,
    pub name: String,
    pub rules: Option<Vec<LibraryRule>>,
}

/// The asset index reference inside a version's detail document.
#[derive(Debug, Clone)]
pub struct AssetIndex {
    pub id: String,
    pub sha1: String,
    pub size: usize,
    pub total_size: usize,
    pub url: String,
}

/// The detail document of one version. The sections this core never reads
/// (arguments, downloads, java version, logging) are carried as raw text so
/// the whole document can be stored back unchanged.
#[derive(Debug)]
pub struct VersionDetail {
    pub arguments: String,
    pub asset_index: AssetIndex,
    pub assets: String,
    pub compliance_level: i32,
    pub downloads: String,
    pub id: String,
    pub java_version: String,
    pub libraries: Vec<Library>,
    pub logging: String,
    pub main_class: String,
    pub v_type: VersionType,
}

/// One object of the asset index: a content hash and a size.
#[derive(Debug, Clone)]
pub struct AssetObject {
    pub hash: String,
    pub size: u64,
}

/// A named asset object.
#[derive(Debug, Clone)]
pub struct AssetEntry {
    pub name: String,
    pub object: AssetObject,
}

/// The asset index: every asset object of a version, in a fixed order.
#[derive(Debug)]
pub struct AssetsManifest {
    pub objects: Vec<AssetEntry>,
}

/// Whether a manifest entry carries exactly this id and channel.
pub open spec fn version_matches(v: Version, id: Seq<char>, t: VersionType) -> bool {
    v.id@ == id && v.v_type == t
}

/// The position of the first matching entry, or -1 if none matches.
pub open spec fn first_match_index(versions: Seq<Version>, id: Seq<char>, t: VersionType) -> int
    decreases versions.len(),
{
    if versions.len() == 0 {
        -1
    } else if version_matches(versions[0], id, t) {
        0
    } else {
        let sub = first_match_index(versions.skip(1), id, t);
        if sub == -1 {
            -1
        } else {
            sub + 1
        }
    }
}

proof fn lemma_first_match_found(versions: Seq<Version>, id: Seq<char>, t: VersionType, i: int)
    requires
        0 <= i < versions.len(),
        version_matches(versions[i], id, t),
        forall|j: int| 0 <= j < i ==> !version_matches(#[trigger] versions[j], id, t),
    ensures
        first_match_index(versions, id, t) == i,
    decreases i,
{
    if i > 0 {
        assert(versions.skip(1)[i - 1] == versions[i]);
        assert forall|j: int| 0 <= j < i - 1 implies !version_matches(
            #[trigger] versions.skip(1)[j],
            id,
            t,
        ) by {
            assert(versions.skip(1)[j] == versions[j + 1]);
        }
        lemma_first_match_found(versions.skip(1), id, t, i - 1);
    }
}

proof fn lemma_first_match_absent(versions: Seq<Version>, id: Seq<char>, t: VersionType)
    requires
        forall|j: int| 0 <= j < versions.len() ==> !version_matches(#[trigger] versions[j], id, t),
    ensures
        first_match_index(versions, id, t) == -1,
    decreases versions.len(),
{
    if versions.len() > 0 {
        assert forall|j: int| 0 <= j < versions.skip(1).len() implies !version_matches(
            #[trigger] versions.skip(1)[j],
            id,
            t,
        ) by {
            assert(versions.skip(1)[j] == versions[j + 1]);
        }
        lemma_first_match_absent(versions.skip(1), id, t);
    }
}

/// Looks a version up by exact `(id, channel)` pair. The first entry carrying
/// both is returned; an id that exists only under another channel does not
/// match.
pub fn get_version_from_manifest<'a>(
    manifest: &'a VersionManifestV2,
    game_version: String,
    version_type: &VersionType,
) -> (r: Result<&'a Version, LauncherError>)
    ensures
        (r is Ok <==> first_match_index(manifest.versions@, game_version@, *version_type) >= 0),
        (match r {
            Ok(v) => *v == manifest.versions@[first_match_index(
                manifest.versions@,
                game_version@,
                *version_type,
            )],
            Err(e) => e is VersionNotFound,
        }),
{
    let n = manifest.versions.len();
    let mut i: usize = 0;
    while i < n
        invariant
            i <= n,
            n == manifest.versions@.len(),
            forall|j: int|
                0 <= j < i ==> !version_matches(
                    #[trigger] manifest.versions@[j],
                    game_version@,
                    *version_type,
                ),
        decreases n - i,
    {
        let v = &manifest.versions[i];
        if v.id == game_version && v.v_type == *version_type {
            proof {
                lemma_first_match_found(
                    manifest.versions@,
                    game_version@,
                    *version_type,
                    i as int,
                );
            }
            return Ok(v);
        }
        i = i + 1;
    }
    proof {
        lemma_first_match_absent(manifest.versions@, game_version@, *version_type);
    }
    Err(LauncherError::VersionNotFound)
}

/// What a rule list decides for a platform: the last rule naming the platform
/// wins, and a platform no rule names is excluded.
pub open spec fn rule_decision(rules: Seq<LibraryRule>, os: OSName) -> bool
    decreases rules.len(),
{
    if rules.len() == 0 {
        false
    } else if rules.last().os.name == os {
        rules.last().action@ == "allow"@
    } else {
        rule_decision(rules.drop_last(), os)
    }
}

/// Whether a library applies to a platform: no rules means it always applies;
/// with rules, `rule_decision` decides.
pub open spec fn library_applies(lib: Library, os: OSName) -> bool {
    match lib.rules {
        Option::None => true,
        Option::Some(rules) => rule_decision(rules@, os),
    }
}

proof fn lemma_rule_decision_at(rules: Seq<LibraryRule>, os: OSName, i: int)
    requires
        0 <= i < rules.len(),
        rules[i].os.name == os,
        forall|j: int| i < j < rules.len() ==> (#[trigger] rules[j]).os.name != os,
    ensures
        rule_decision(rules, os) == (rules[i].action@ == "allow"@),
    decreases rules.len(),
{
    if i == rules.len() - 1 {
    } else {
        assert forall|j: int| i < j < rules.drop_last().len() implies (#[trigger] rules.drop_last()[j]).os.name
            != os by {
            assert(rules.drop_last()[j] == rules[j]);
        }
        assert(rules.drop_last()[i] == rules[i]);
        lemma_rule_decision_at(rules.drop_last(), os, i);
    }
}

proof fn lemma_rule_decision_none(rules: Seq<LibraryRule>, os: OSName)
    requires
        forall|j: int| 0 <= j < rules.len() ==> (#[trigger] rules[j]).os.name != os,
    ensures
        rule_decision(rules, os) == false,
    decreases rules.len(),
{
    if rules.len() > 0 {
        assert forall|j: int| 0 <= j < rules.drop_last().len() implies (#[trigger] rules.drop_last()[j]).os.name
            != os by {
            assert(rules.drop_last()[j] == rules[j]);
        }
        lemma_rule_decision_none(rules.drop_last(), os);
    }
}

/// Decides whether a library is needed on `current_os`: a library without
/// rules always is; otherwise the last rule whose platform matches decides,
/// and a library whose rules never name the platform is excluded.
pub fn should_use_library(library: &Library, current_os: OSName) -> (r: bool)
    ensures
        r == library_applies(*library, current_os),
{
    match &library.rules {
        Option::None => true,
        Option::Some(rules) => {
            let allow = String::from_str("allow");
            let n = rules.len();
            let mut i: usize = n;
            while i > 0
                invariant
                    i <= n,
                    n == rules@.len(),
                    allow@ == "allow"@,
                    library.rules is Some && library.rules->Some_0 == *rules,
                    forall|j: int| i <= j < n ==> (#[trigger] rules@[j]).os.name != current_os,
                decreases i,
            {
                i = i - 1;
                let rule = &rules[i];
                if rule.os.name == current_os {
                    proof {
                        lemma_rule_decision_at(rules@, current_os, i as int);
                        assert(library.rules is Some);
                        assert(library.rules->Some_0 == *rules);
                        assert(library_applies(*library, current_os) == rule_decision(
                            rules@,
                            current_os,
                        ));
                    }
                    let r = rule.action == allow;
                    proof {
                        assert(r == (rules@[i as int].action@ == "allow"@));
                    }
                    return r;
                }
            }
            proof {
                lemma_rule_decision_none(rules@, current_os);
            }
            false
        },
    }
}

/// Drops every library that does not apply to `current_os`, keeping the
/// applicable ones in their original order.
pub fn retain_applicable_libraries(libraries: &mut Vec<Library>, current_os: OSName)
    ensures
        final(libraries)@ == old(libraries)@.filter(
            |l: Library| library_applies(l, current_os),
        ),
{
    let ghost orig = libraries@;
    let ghost pred = |l: Library| library_applies(l, current_os);
    let mut kept: Vec<Library> = Vec::new();
    let ghost k: int = 0;
    while libraries.len() > 0
        invariant
            0 <= k <= orig.len(),
            libraries@ =~= orig.skip(k),
            kept@ == orig.take(k).filter(pred),
            pred == (|l: Library| library_applies(l, current_os)),
        decreases libraries@.len(),
    {
        let l = libraries.remove(0);
        proof {
            assert(l == orig[k]);
            assert(libraries@ =~= orig.skip(k + 1));
            reveal(Seq::filter);
            assert(orig.take(k + 1).drop_last() =~= orig.take(k));
            assert(orig.take(k + 1).last() == orig[k]);
        }
        if should_use_library(&l, current_os) {
            kept.push(l);
        }
        proof {
            k = k + 1;
        }
    }
    proof {
        assert(orig.take(k) =~= orig);
    }
    *libraries = kept;
}

} // verus!
