//! The manifest cache and the on-disk layout of everything it acquires.
//!
//! Under the application directory: `versions/<id>.json`,
//! `versions/<id>/{client|server}.jar`, `libraries/<path>`, `java/<runtime>/`,
//! `assets/indexes/<id>.json`, `assets/objects/<hash[0:2]>/<hash>`,
//! `logging/<id>` and `instances/<name>/`.

use vstd::prelude::*;
use vstd::string::*;

use crate::downloader::Downloadable;
use crate::error::{message, ManifestError};
use crate::manifest::{
    version_ids_unique, AssetIndex, DownloadMetadata, JarType, Library, LoggingConfiguration,
    ManifestVersion, VanillaManifest,
};
use crate::text::{join_path, joined, str_eq};

verus! {

/// The manifest cache and the directories it fills.
pub struct ResourceManager {
    app_dir: String,
    version_dir: String,
    libraries_dir: String,
    logging_dir: String,
    asset_dir: String,
    java_dir: String,
    instances_dir: String,
    vanilla_manifest: Option<VanillaManifest>,
}

/// A single file that is used from the cache when its copy there has the
/// expected hash, and fetched, checked and stored otherwise.
pub struct CachedDownload {
    pub url: String,
    pub sha1: String,
    pub path: String,
    /// How the file is named in messages.
    pub label: String,
}

/// The ids a version list shows: every version when snapshots are shown,
/// else only the releases.
pub open spec fn listed_versions(versions: Seq<ManifestVersion>, show_snapshots: bool) -> Seq<
    Seq<char>,
>
    decreases versions.len(),
{
    if versions.len() == 0 {
        Seq::empty()
    } else {
        let rest = listed_versions(versions.drop_last(), show_snapshots);
        if show_snapshots || versions.last().version_type@ == "release"@ {
            rest.push(versions.last().id@)
        } else {
            rest
        }
    }
}

/// Every listed id is the id of some version of the manifest, and with unique
/// ids no id is listed twice.
proof fn lemma_listed_versions_distinct(versions: Seq<ManifestVersion>, show_snapshots: bool)
    ensures
        forall|k: int|
            0 <= k < listed_versions(versions, show_snapshots).len() ==> exists|j: int|
                0 <= j < versions.len() && #[trigger] listed_versions(versions, show_snapshots)[k]
                    == versions[j].id@,
        version_ids_unique(versions) ==> listed_versions(versions, show_snapshots).no_duplicates(),
    decreases versions.len(),
{
    if versions.len() > 0 {
        let rest = versions.drop_last();
        lemma_listed_versions_distinct(rest, show_snapshots);
        let l = listed_versions(versions, show_snapshots);
        let lr = listed_versions(rest, show_snapshots);
        assert forall|k: int| 0 <= k < l.len() implies exists|j: int|
            0 <= j < versions.len() && #[trigger] l[k] == versions[j].id@ by {
            if k < lr.len() {
                let j = choose|j: int| 0 <= j < rest.len() && lr[k] == rest[j].id@;
                assert(l[k] == versions[j].id@);
            } else {
                assert(l[k] == versions[versions.len() - 1].id@);
            }
        }
        if version_ids_unique(versions) {
            assert(version_ids_unique(rest));
            if l.len() > lr.len() {
                let last = versions.len() - 1;
                assert forall|k: int| 0 <= k < lr.len() implies lr[k] != versions[last].id@ by {
                    let j = choose|j: int| 0 <= j < rest.len() && lr[k] == rest[j].id@;
                    assert(versions[j].id@ != versions[last].id@);
                }
                assert forall|a: int, b: int| 0 <= a < l.len() && 0 <= b < l.len() && a != b implies l[a]
                    != l[b] by {
                    if a < lr.len() && b < lr.len() {
                    } else if a < lr.len() {
                        assert(l[a] == lr[a]);
                    } else {
                        assert(l[b] == lr[b]);
                    }
                }
            }
        }
    }
}

/// Whether `i` is the first version of the manifest with id `id`.
pub open spec fn first_version(versions: Seq<ManifestVersion>, id: Seq<char>, i: int) -> bool {
    &&& 0 <= i < versions.len()
    &&& versions[i].id@ == id
    &&& forall|k: int| 0 <= k < i ==> (#[trigger] versions[k]).id@ != id
}

/// Whether the manifest lists a version with id `id`.
pub open spec fn lists_version(versions: Seq<ManifestVersion>, id: Seq<char>) -> bool {
    exists|i: int| 0 <= i < versions.len() && (#[trigger] versions[i]).id@ == id
}

/// The name of a game jar file.
pub open spec fn jar_file_name(jar_type: JarType) -> Seq<char> {
    match jar_type {
        JarType::Client => "client.jar"@,
        JarType::Server => "server.jar"@,
    }
}

impl ResourceManager {
    /// The cache directories lie directly under the application directory.
    #[verifier::type_invariant]
    spec fn wf(&self) -> bool {
        &&& self.version_dir@ == joined(self.app_dir@, "versions"@)
        &&& self.libraries_dir@ == joined(self.app_dir@, "libraries"@)
        &&& self.logging_dir@ == joined(self.app_dir@, "logging"@)
        &&& self.asset_dir@ == joined(self.app_dir@, "assets"@)
        &&& self.java_dir@ == joined(self.app_dir@, "java"@)
        &&& self.instances_dir@ == joined(self.app_dir@, "instances"@)
        &&& match self.vanilla_manifest {
            Some(m) => version_ids_unique(m.versions@),
            None => true,
        }
    }

    pub closed spec fn spec_app_dir(&self) -> Seq<char> {
        self.app_dir@
    }

    pub closed spec fn spec_manifest(&self) -> Option<Seq<ManifestVersion>> {
        match self.vanilla_manifest {
            Some(m) => Some(m.versions@),
            None => None,
        }
    }

    pub open spec fn spec_version_dir(&self) -> Seq<char> {
        joined(self.spec_app_dir(), "versions"@)
    }

    pub open spec fn spec_libraries_dir(&self) -> Seq<char> {
        joined(self.spec_app_dir(), "libraries"@)
    }

    pub open spec fn spec_logging_dir(&self) -> Seq<char> {
        joined(self.spec_app_dir(), "logging"@)
    }

    pub open spec fn spec_asset_dir(&self) -> Seq<char> {
        joined(self.spec_app_dir(), "assets"@)
    }

    pub open spec fn spec_java_dir(&self) -> Seq<char> {
        joined(self.spec_app_dir(), "java"@)
    }

    pub open spec fn spec_instances_dir(&self) -> Seq<char> {
        joined(self.spec_app_dir(), "instances"@)
    }

    /// A manager rooted at `app_dir`, with no version manifest loaded yet.
    pub fn new(app_dir: &str) -> (r: ResourceManager)
        ensures
            r.spec_app_dir() == app_dir@,
            r.spec_manifest() is None,
    {
        ResourceManager {
            app_dir: app_dir.to_owned(),
            version_dir: join_path(app_dir, "versions"),
            libraries_dir: join_path(app_dir, "libraries"),
            logging_dir: join_path(app_dir, "logging"),
            asset_dir: join_path(app_dir, "assets"),
            java_dir: join_path(app_dir, "java"),
            instances_dir: join_path(app_dir, "instances"),
            vanilla_manifest: None,
        }
    }

    /// Loads (or replaces) the version manifest; its ids must be unique.
    pub fn set_vanilla_manifest(&mut self, manifest: VanillaManifest)
        requires
            version_ids_unique(manifest.versions@),
        ensures
            final(self).spec_app_dir() == old(self).spec_app_dir(),
            final(self).spec_manifest() == Some(manifest.versions@),
    {
        proof {
            use_type_invariant(&*self);
        }
        self.vanilla_manifest = Some(manifest);
    }

    /// Whether a version manifest is loaded.
    pub fn has_vanilla_manifest(&self) -> (r: bool)
        ensures
            r == self.spec_manifest() is Some,
    {
        proof {
            use_type_invariant(self);
        }
        self.vanilla_manifest.is_some()
    }

    /// Lists the version ids of the manifest, all of them when `show_snapshots`
    /// holds (old betas count as snapshots), else only releases. Empty when no
    /// manifest is loaded. No id is listed twice.
    pub fn get_vanilla_version_list(&self, show_snapshots: bool) -> (r: Vec<String>)
        ensures
            r@.map_values(|s: String| s@) == match self.spec_manifest() {
                Some(versions) => listed_versions(versions, show_snapshots),
                None => Seq::empty(),
            },
            r@.map_values(|s: String| s@).no_duplicates(),
    {
        proof {
            use_type_invariant(self);
        }
        let mut result: Vec<String> = Vec::new();
        if let Some(manifest) = &self.vanilla_manifest {
            let versions = &manifest.versions;
            let mut i: usize = 0;
            while i < versions.len()
                invariant
                    i <= versions@.len(),
                    result@.map_values(|s: String| s@) == listed_versions(
                        versions@.subrange(0, i as int),
                        show_snapshots,
                    ),
                decreases versions@.len() - i,
            {
                assert(versions@.subrange(0, i + 1).drop_last() =~= versions@.subrange(
                    0,
                    i as int,
                ));
                let ghost prev = result@.map_values(|s: String| s@);
                let v = &versions[i];
                if show_snapshots || str_eq(v.version_type.as_str(), "release") {
                    result.push(v.id.clone());
                    assert(result@.map_values(|s: String| s@) =~= prev.push(v.id@));
                }
                i = i + 1;
            }
            assert(versions@.subrange(0, i as int) =~= versions@);
            proof {
                lemma_listed_versions_distinct(versions@, show_snapshots);
            }
        }
        result
    }

    /// The manifest entry of `version_id`: a resource error when no manifest is
    /// loaded, a retrieval error when the manifest lacks the id.
    pub fn find_version(&self, version_id: &str) -> (r: Result<&ManifestVersion, ManifestError>)
        ensures
            match self.spec_manifest() {
                None => r matches Err(ManifestError::ResourceError(_)),
                Some(versions) => if lists_version(versions, version_id@) {
                    r matches Ok(v) && exists|i: int|
                        first_version(versions, version_id@, i) && *v == #[trigger] versions[i]
                } else {
                    r matches Err(ManifestError::VersionRetrievalError(m)) && m@
                        == "Cannot find version with id: "@ + version_id@
                },
            },
    {
        proof {
            use_type_invariant(self);
        }
        match &self.vanilla_manifest {
            None => Err(
                ManifestError::ResourceError(
                    "Trying to access vanilla manifest but it is not downloaded yet.".to_owned(),
                ),
            ),
            Some(manifest) => {
                let versions = &manifest.versions;
                let mut i: usize = 0;
                while i < versions.len()
                    invariant
                        self.spec_manifest() == Some(versions@),
                        i <= versions@.len(),
                        forall|k: int| 0 <= k < i ==> (#[trigger] versions@[k]).id@ != version_id@,
                    decreases versions@.len() - i,
                {
                    if str_eq(versions[i].id.as_str(), version_id) {
                        assert(first_version(versions@, version_id@, i as int));
                        assert(lists_version(versions@, version_id@));
                        return Ok(&versions[i]);
                    }
                    i = i + 1;
                }
                Err(
                    ManifestError::VersionRetrievalError(
                        message("Cannot find version with id: ", version_id),
                    ),
                )
            },
        }
    }

    /// Gets the path to a version json given a `version_id`: `versions/<id>.json`.
    pub fn get_version_file_path(&self, version_id: &str) -> (r: String)
        ensures
            r@ == joined(self.spec_version_dir(), version_id@ + ".json"@),
    {
        proof {
            use_type_invariant(self);
        }
        let mut name = version_id.to_owned();
        name.append(".json");
        join_path(self.version_dir.as_str(), name.as_str())
    }

    /// Where the per-version manifest of `version_id` comes from and is cached:
    /// the manifest entry's url and hash, and `versions/<id>.json`.
    pub fn plan_vanilla_version(&self, version_id: &str) -> (r: Result<CachedDownload, ManifestError>)
        ensures
            match self.spec_manifest() {
                None => r matches Err(ManifestError::ResourceError(_)),
                Some(versions) => if lists_version(versions, version_id@) {
                    r matches Ok(d) && d.path@ == joined(
                        self.spec_version_dir(),
                        version_id@ + ".json"@,
                    ) && d.label@ == version_id@ && exists|i: int|
                        first_version(versions, version_id@, i) && d.url@ == (
                        #[trigger] versions[i]).url@ && d.sha1@ == versions[i].sha1@
                } else {
                    r matches Err(ManifestError::VersionRetrievalError(_))
                },
            },
    {
        proof {
            use_type_invariant(self);
        }
        let v = self.find_version(version_id)?;
        Ok(
            CachedDownload {
                url: v.url.clone(),
                sha1: v.sha1.clone(),
                path: self.get_version_file_path(version_id),
                label: version_id.to_owned(),
            },
        )
    }

    /// Where a game jar is stored: `versions/<id>/{client|server}.jar`.
    pub fn game_jar_path(&self, jar_type: JarType, version_id: &str) -> (r: String)
        ensures
            r@ == joined(joined(self.spec_version_dir(), version_id@), jar_file_name(jar_type)),
    {
        proof {
            use_type_invariant(self);
        }
        let dir = join_path(self.version_dir.as_str(), version_id);
        let file = match jar_type {
            JarType::Client => "client.jar",
            JarType::Server => "server.jar",
        };
        join_path(dir.as_str(), file)
    }

    /// Where a game jar comes from and is cached.
    pub fn plan_game_jar(&self, jar_type: JarType, download: &DownloadMetadata, version_id: &str) -> (r:
        CachedDownload)
        ensures
            r.url@ == download.url@,
            r.sha1@ == download.sha1@,
            r.path@ == joined(joined(self.spec_version_dir(), version_id@), jar_file_name(jar_type)),
            r.label@ == version_id@,
    {
        proof {
            use_type_invariant(self);
        }
        CachedDownload {
            url: download.url.clone(),
            sha1: download.sha1.clone(),
            path: self.game_jar_path(jar_type, version_id),
            label: version_id.to_owned(),
        }
    }

    /// Where a logging configuration comes from and is cached: `logging/<id>`.
    pub fn plan_logging_configuration(&self, logging: &LoggingConfiguration) -> (r: CachedDownload)
        ensures
            r.url@ == logging.download.url@,
            r.sha1@ == logging.download.sha1@,
            r.path@ == joined(self.spec_logging_dir(), logging.id@),
            r.label@ == logging.id@,
    {
        proof {
            use_type_invariant(self);
        }
        CachedDownload {
            url: logging.download.url.clone(),
            sha1: logging.download.sha1.clone(),
            path: join_path(self.logging_dir.as_str(), logging.id.as_str()),
            label: logging.id.clone(),
        }
    }

    /// Where an asset index is stored: `assets/indexes/<id>.json`.
    pub fn asset_index_path(&self, asset_index: &AssetIndex) -> (r: String)
        ensures
            r@ == joined(joined(self.spec_asset_dir(), "indexes"@), asset_index.id@ + ".json"@),
    {
        proof {
            use_type_invariant(self);
        }
        let dir = join_path(self.asset_dir.as_str(), "indexes");
        let mut name = asset_index.id.clone();
        name.append(".json");
        join_path(dir.as_str(), name.as_str())
    }

    /// The directory asset objects are stored under: `assets/objects`.
    pub fn asset_objects_dir(&self) -> (r: String)
        ensures
            r@ == joined(self.spec_asset_dir(), "objects"@),
    {
        proof {
            use_type_invariant(self);
        }
        join_path(self.asset_dir.as_str(), "objects")
    }

    /// The directory a java runtime is laid out in: `java/<name>`.
    pub fn java_runtime_dir(&self, runtime_name: &str) -> (r: String)
        ensures
            r@ == joined(self.spec_java_dir(), runtime_name@),
    {
        proof {
            use_type_invariant(self);
        }
        join_path(self.java_dir.as_str(), runtime_name)
    }

    /// The java executable of a runtime: `java/<name>/bin/java`.
    pub fn java_executable_path(&self, runtime_name: &str) -> (r: String)
        ensures
            r@ == joined(joined(self.spec_java_dir(), runtime_name@), "bin/java"@),
    {
        proof {
            use_type_invariant(self);
        }
        let dir = self.java_runtime_dir(runtime_name);
        join_path(dir.as_str(), "bin/java")
    }

    /// The directory of an instance: `instances/<name>`.
    pub fn instance_dir(&self, instance_name: &str) -> (r: String)
        ensures
            r@ == joined(self.spec_instances_dir(), instance_name@),
    {
        proof {
            use_type_invariant(self);
        }
        join_path(self.instances_dir.as_str(), instance_name)
    }

    /// The paths of the libraries under the libraries directory, in order.
    pub fn library_paths(&self, libraries: &[Library]) -> (r: Vec<String>)
        ensures
            r@.len() == libraries@.len(),
            forall|i: int|
                0 <= i < libraries@.len() ==> (#[trigger] r@[i])@ == libraries@[i].spec_path(
                    self.spec_libraries_dir(),
                ),
    {
        proof {
            use_type_invariant(self);
        }
        let dir = self.libraries_dir.as_str();
        let mut r: Vec<String> = Vec::new();
        let mut i: usize = 0;
        while i < libraries.len()
            invariant
                dir@ == self.spec_libraries_dir(),
                i <= libraries@.len(),
                r@.len() == i,
                forall|k: int|
                    0 <= k < i ==> (#[trigger] r@[k])@ == libraries@[k].spec_path(
                        self.spec_libraries_dir(),
                    ),
            decreases libraries@.len() - i,
        {
            r.push(libraries[i].path(dir));
            i = i + 1;
        }
        r
    }

    /// The application directory.
    pub fn app_dir(&self) -> (r: &str)
        ensures
            r@ == self.spec_app_dir(),
    {
        proof {
            use_type_invariant(self);
        }
        self.app_dir.as_str()
    }

    /// The versions directory.
    pub fn version_dir(&self) -> (r: &str)
        ensures
            r@ == self.spec_version_dir(),
    {
        proof {
            use_type_invariant(self);
        }
        self.version_dir.as_str()
    }

    /// The libraries directory.
    pub fn libraries_dir(&self) -> (r: &str)
        ensures
            r@ == self.spec_libraries_dir(),
    {
        proof {
            use_type_invariant(self);
        }
        self.libraries_dir.as_str()
    }

    /// The assets directory.
    pub fn assets_dir(&self) -> (r: &str)
        ensures
            r@ == self.spec_asset_dir(),
    {
        proof {
            use_type_invariant(self);
        }
        self.asset_dir.as_str()
    }

    /// The java runtimes directory.
    pub fn java_dir(&self) -> (r: &str)
        ensures
            r@ == self.spec_java_dir(),
    {
        proof {
            use_type_invariant(self);
        }
        self.java_dir.as_str()
    }

    /// The logging configurations directory.
    pub fn logging_dir(&self) -> (r: &str)
        ensures
            r@ == self.spec_logging_dir(),
    {
        proof {
            use_type_invariant(self);
        }
        self.logging_dir.as_str()
    }
}

} // verus!
