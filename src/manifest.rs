//! The manifests the engine reads, as plain values.

use vstd::prelude::*;

use crate::arguments::LaunchArguments;
use crate::rules::Rule;
use crate::text::str_eq;

verus! {

/// One entry of the version manifest.
pub struct ManifestVersion {
    /// The version identifier, such as `1.20.1`.
    pub id: String,
    /// Where the per-version manifest is fetched from.
    pub url: String,
    /// The expected hash of the per-version manifest.
    pub sha1: String,
    /// The release-type tag (`release`, `snapshot`, `old_beta`, ...).
    pub version_type: String,
}

/// The version manifest: every known version, in manifest order.
pub struct VanillaManifest {
    pub versions: Vec<ManifestVersion>,
}

/// Whether each version id occurs once.
pub open spec fn version_ids_unique(versions: Seq<ManifestVersion>) -> bool {
    forall|i: int, j: int|
        0 <= i < versions.len() && 0 <= j < versions.len() && i != j ==> (#[trigger] versions[i]).id@
            != (#[trigger] versions[j]).id@
}

impl VanillaManifest {
    /// Whether each version id occurs once in the manifest.
    pub fn has_unique_ids(&self) -> (r: bool)
        ensures
            r == version_ids_unique(self.versions@),
    {
        let v = &self.versions;
        let n = v.len();
        let mut i: usize = 0;
        while i < n
            invariant
                v@ == self.versions@,
                n == v@.len(),
                i <= n,
                forall|a: int, b: int|
                    0 <= a < i && 0 <= b < n && a != b ==> (#[trigger] v@[a]).id@ != (
                    #[trigger] v@[b]).id@,
            decreases n - i,
        {
            let mut j: usize = 0;
            while j < n
                invariant
                    v@ == self.versions@,
                    n == v@.len(),
                    i < n,
                    j <= n,
                    forall|a: int, b: int|
                        0 <= a < i && 0 <= b < n && a != b ==> (#[trigger] v@[a]).id@ != (
                        #[trigger] v@[b]).id@,
                    forall|b: int| 0 <= b < j && b != i ==> v@[i as int].id@ != (#[trigger] v@[b]).id@,
                decreases n - j,
            {
                if j != i && str_eq(v[i].id.as_str(), v[j].id.as_str()) {
                    assert(v@[i as int].id@ == v@[j as int].id@);
                    return false;
                }
                j = j + 1;
            }
            i = i + 1;
        }
        true
    }
}

/// Where a file is fetched from and the hash it must have.
pub struct DownloadMetadata {
    pub url: String,
    pub sha1: String,
    pub size: u64,
}

/// A library file: its path under the libraries directory and its download.
pub struct Artifact {
    pub path: String,
    pub download: DownloadMetadata,
}

/// Entries of an archive that are not extracted.
pub struct ExtractionRule {
    pub exclude: Vec<String>,
}

/// Maps an operating-system name to the key of a library's native classifier.
pub struct NativeKey {
    pub os: String,
    pub classifier: String,
}

/// A native variant of a library, under its classifier key.
pub struct Classifier {
    pub key: String,
    pub artifact: Artifact,
}

/// A library of a version.
pub struct Library {
    pub name: String,
    pub artifact: Artifact,
    /// The rules deciding whether the library is used on a host.
    pub rules: Option<Vec<Rule>>,
    /// Which classifier holds the natives for each operating system.
    pub natives: Vec<NativeKey>,
    pub classifiers: Vec<Classifier>,
    pub extract: Option<ExtractionRule>,
}

/// The native classifier a library contributes on a host.
pub struct DownloadableClassifier {
    pub name: String,
    pub artifact: Artifact,
    pub extraction_rule: Option<ExtractionRule>,
}

/// Which game jar to fetch.
#[derive(Clone, Copy, PartialEq, Eq, Structural)]
pub enum JarType {
    Client,
    Server,
}

/// The java runtime component a version asks for.
pub struct JavaVersion {
    pub component: String,
    pub major_version: u32,
}

/// The logging configuration of a version and the argument that loads it.
pub struct LoggingConfiguration {
    pub id: String,
    pub argument: String,
    pub download: DownloadMetadata,
}

/// The asset index a version uses.
pub struct AssetIndex {
    pub id: String,
    pub download: DownloadMetadata,
}

/// One object of an asset index.
pub struct AssetObjectEntry {
    pub name: String,
    pub hash: String,
    pub size: u64,
}

/// The objects of an asset index.
pub struct AssetObject {
    pub objects: Vec<AssetObjectEntry>,
}

/// The per-version manifest.
pub struct VanillaVersion {
    pub id: String,
    pub version_type: String,
    pub main_class: String,
    pub libraries: Vec<Library>,
    pub client: DownloadMetadata,
    pub server: Option<DownloadMetadata>,
    pub java_version: JavaVersion,
    pub logging: Option<LoggingConfiguration>,
    pub asset_index: AssetIndex,
    pub arguments: LaunchArguments,
}

/// A runtime named in the java manifest, with the manifest of its files.
pub struct JavaRuntime {
    pub manifest: DownloadMetadata,
    pub version_name: String,
}

/// The runtimes offered for one platform; each component may be missing.
pub struct JavaManifest {
    pub java_runtime_alpha: Option<JavaRuntime>,
    pub java_runtime_beta: Option<JavaRuntime>,
    pub java_runtime_gamma: Option<JavaRuntime>,
    pub jre_legacy: Option<JavaRuntime>,
    pub minecraft_java_exe: Option<JavaRuntime>,
}

/// The java manifest of one platform key.
pub struct JavaPlatformEntry {
    pub key: String,
    pub manifest: JavaManifest,
}

/// A file of a java runtime.
pub struct JavaRuntimeFile {
    pub path: String,
    pub download: DownloadMetadata,
    pub executable: bool,
}

/// One entry of a java runtime manifest.
pub enum JavaRuntimeType {
    File(JavaRuntimeFile),
    Directory(String),
    Link { path: String, target: String },
}

/// A java runtime manifest: its entries in manifest order.
pub struct JavaRuntimeManifest {
    pub files: Vec<JavaRuntimeType>,
}

impl DownloadMetadata {
    /// A field-by-field copy.
    pub fn duplicate(&self) -> (r: DownloadMetadata)
        ensures
            r == *self,
    {
        DownloadMetadata { url: self.url.clone(), sha1: self.sha1.clone(), size: self.size }
    }
}

impl Artifact {
    /// A field-by-field copy.
    pub fn duplicate(&self) -> (r: Artifact)
        ensures
            r == *self,
    {
        Artifact { path: self.path.clone(), download: self.download.duplicate() }
    }
}

} // verus!
