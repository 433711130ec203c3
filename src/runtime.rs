//! The java runtime: which one a host gets, and how its manifest becomes a
//! directory tree.
//!
//! A runtime manifest is laid out in three passes: every directory first, then
//! every file, then every link.

use vstd::prelude::*;
use vstd::string::*;

use crate::error::{message, ManifestError};
use crate::manifest::{
    DownloadMetadata, JavaManifest, JavaPlatformEntry, JavaRuntime, JavaRuntimeFile,
    JavaRuntimeType,
};
use crate::rules::Platform;
use crate::text::{join_path, joined, str_eq};

verus! {

/// The java manifest key of an operating system, before the architecture is
/// looked at.
pub open spec fn os_key(os: Seq<char>) -> Seq<char> {
    if os == "macos"@ {
        "mac-os"@
    } else {
        os
    }
}

/// The java manifest key for a host, where `listed` tells whether the map holds
/// the operating system's own key. `None` when the host is not provided for.
pub open spec fn java_key(listed: bool, os: Seq<char>, arch: Seq<char>) -> Option<Seq<char>> {
    let key = os_key(os);
    if listed {
        Some(key)
    } else if key == "linux"@ {
        if arch == "x86"@ {
            Some("linux-i386"@)
        } else {
            Some(key)
        }
    } else if key == "mac-os"@ {
        if arch == "aarch64"@ {
            Some("mac-os-arm64"@)
        } else {
            Some(key)
        }
    } else if key == "windows"@ {
        if arch == "x86"@ {
            Some("windows-x86"@)
        } else if arch == "x86_64"@ {
            Some("windows-x64"@)
        } else {
            None
        }
    } else {
        None
    }
}

/// Whether the java manifest map holds `key`.
pub open spec fn lists_key(map: Seq<JavaPlatformEntry>, key: Seq<char>) -> bool {
    exists|i: int| 0 <= i < map.len() && (#[trigger] map[i]).key@ == key
}

/// Whether `i` is the first entry of the map under `key`.
pub open spec fn first_with_key(map: Seq<JavaPlatformEntry>, key: Seq<char>, i: int) -> bool {
    &&& 0 <= i < map.len()
    &&& map[i].key@ == key
    &&& forall|k: int| 0 <= k < i ==> (#[trigger] map[k]).key@ != key
}

/// The runtime a manifest offers for a component name; `None` as the outer
/// value when the name is not a known component.
pub open spec fn component_of(m: JavaManifest, component: Seq<char>) -> Option<Option<JavaRuntime>> {
    if component == "java-runtime-alpha"@ {
        Some(m.java_runtime_alpha)
    } else if component == "java-runtime-beta"@ {
        Some(m.java_runtime_beta)
    } else if component == "java-runtime-gamma"@ {
        Some(m.java_runtime_gamma)
    } else if component == "jre-legacy"@ {
        Some(m.jre_legacy)
    } else if component == "minecraft-java-exe"@ {
        Some(m.minecraft_java_exe)
    } else {
        None
    }
}

/// The index of the first entry under `key`.
fn position_of_key(map: &[JavaPlatformEntry], key: &str) -> (r: Option<usize>)
    ensures
        match r {
            Some(i) => first_with_key(map@, key@, i as int),
            None => !lists_key(map@, key@),
        },
{
    let mut i: usize = 0;
    while i < map.len()
        invariant
            i <= map@.len(),
            forall|k: int| 0 <= k < i ==> (#[trigger] map@[k]).key@ != key@,
        decreases map@.len() - i,
    {
        if str_eq(map[i].key.as_str(), key) {
            return Some(i);
        }
        i = i + 1;
    }
    None
}

/// Whether the java manifest map lists each platform key once.
pub open spec fn platform_keys_unique(map: Seq<JavaPlatformEntry>) -> bool {
    forall|i: int, j: int|
        0 <= i < map.len() && 0 <= j < map.len() && i != j ==> (#[trigger] map[i]).key@ != (
        #[trigger] map[j]).key@
}

/// Whether a java manifest map lists each platform key once.
pub fn java_platform_keys_unique(map: &[JavaPlatformEntry]) -> (r: bool)
    ensures
        r == platform_keys_unique(map@),
{
    let n = map.len();
    let mut i: usize = 0;
    while i < n
        invariant
            n == map@.len(),
            i <= n,
            forall|a: int, b: int|
                0 <= a < i && 0 <= b < n && a != b ==> (#[trigger] map@[a]).key@ != (
                #[trigger] map@[b]).key@,
        decreases n - i,
    {
        let mut j: usize = 0;
        while j < n
            invariant
                n == map@.len(),
                i < n,
                j <= n,
                forall|a: int, b: int|
                    0 <= a < i && 0 <= b < n && a != b ==> (#[trigger] map@[a]).key@ != (
                    #[trigger] map@[b]).key@,
                forall|b: int| 0 <= b < j && b != i ==> map@[i as int].key@ != (#[trigger] map@[b]).key@,
            decreases n - j,
        {
            if j != i && str_eq(map[i].key.as_str(), map[j].key.as_str()) {
                return false;
            }
            j = j + 1;
        }
        i = i + 1;
    }
    true
}

/// The component names a java manifest offers.
pub open spec fn known_component(component: Seq<char>) -> bool {
    component == "java-runtime-alpha"@ || component == "java-runtime-beta"@ || component
        == "java-runtime-gamma"@ || component == "jre-legacy"@ || component == "minecraft-java-exe"@
}

/// Whether the host is provided for: the map lists its own key, or its
/// operating system is Linux, macOS or Windows, and a Windows host is x86 or
/// x86_64.
pub fn is_supported_java_host(map: &[JavaPlatformEntry], platform: &Platform) -> (r: bool)
    ensures
        r == java_key(lists_key(map@, os_key(platform.os@)), platform.os@, platform.arch@) is Some,
{
    proof {
        reveal_strlit("linux");
        reveal_strlit("mac-os");
        reveal_strlit("windows");
        reveal_strlit("macos");
    }
    let key: &str = if str_eq(platform.os.as_str(), "macos") {
        "mac-os"
    } else {
        platform.os.as_str()
    };
    if position_of_key(map, key).is_some() {
        return true;
    }
    let arch = platform.arch.as_str();
    str_eq(key, "linux") || str_eq(key, "mac-os") || (str_eq(key, "windows") && (str_eq(arch, "x86")
        || str_eq(arch, "x86_64")))
}

/// Whether `component` names a runtime component of the java manifest.
pub fn is_known_java_component(component: &str) -> (r: bool)
    ensures
        r == known_component(component@),
{
    str_eq(component, "java-runtime-alpha") || str_eq(component, "java-runtime-beta") || str_eq(
        component,
        "java-runtime-gamma",
    ) || str_eq(component, "jre-legacy") || str_eq(component, "minecraft-java-exe")
}

/// Picks the java manifest key for the host: the operating system's own key
/// when the map lists it, else one refined by architecture. An unknown
/// operating system, or an unknown Windows architecture, is a configuration
/// fault that callers rule out first (see [`is_supported_java_host`]).
pub fn determine_key_for_java_manifest(map: &[JavaPlatformEntry], platform: &Platform) -> (r: String)
    requires
        java_key(lists_key(map@, os_key(platform.os@)), platform.os@, platform.arch@) is Some,
    ensures
        r@ == java_key(lists_key(map@, os_key(platform.os@)), platform.os@, platform.arch@)->Some_0,
{
    proof {
        reveal_strlit("linux");
        reveal_strlit("mac-os");
        reveal_strlit("windows");
        reveal_strlit("macos");
    }
    let key: &str = if str_eq(platform.os.as_str(), "macos") {
        "mac-os"
    } else {
        platform.os.as_str()
    };
    if position_of_key(map, key).is_some() {
        return key.to_owned();
    }
    let arch = platform.arch.as_str();
    if str_eq(key, "linux") {
        if str_eq(arch, "x86") {
            "linux-i386".to_owned()
        } else {
            key.to_owned()
        }
    } else if str_eq(key, "mac-os") {
        if str_eq(arch, "aarch64") {
            "mac-os-arm64".to_owned()
        } else {
            key.to_owned()
        }
    } else if str_eq(arch, "x86") {
        "windows-x86".to_owned()
    } else {
        "windows-x64".to_owned()
    }
}

/// The runtime a java manifest offers for `component`.
fn runtime_component<'a>(m: &'a JavaManifest, component: &str) -> (r: Option<&'a Option<JavaRuntime>>)
    ensures
        match component_of(*m, component@) {
            Some(c) => r == Some(&c),
            None => r is None,
        },
{
    if str_eq(component, "java-runtime-alpha") {
        Some(&m.java_runtime_alpha)
    } else if str_eq(component, "java-runtime-beta") {
        Some(&m.java_runtime_beta)
    } else if str_eq(component, "java-runtime-gamma") {
        Some(&m.java_runtime_gamma)
    } else if str_eq(component, "jre-legacy") {
        Some(&m.jre_legacy)
    } else if str_eq(component, "minecraft-java-exe") {
        Some(&m.minecraft_java_exe)
    } else {
        None
    }
}

/// Picks the runtime that provides `java_component` on the host: a
/// configuration error when the map has no entry under the host's key, a
/// retrieval error when that entry lacks the component. The host and the
/// component name must be known ones.
pub fn select_java_runtime<'a>(
    map: &'a [JavaPlatformEntry],
    java_component: &str,
    platform: &Platform,
) -> (r: Result<&'a JavaRuntime, ManifestError>)
    requires
        platform_keys_unique(map@),
        java_key(lists_key(map@, os_key(platform.os@)), platform.os@, platform.arch@) is Some,
        known_component(java_component@),
    ensures
        ({
            let k = java_key(lists_key(map@, os_key(platform.os@)), platform.os@, platform.arch@)->Some_0;
            if !lists_key(map@, k) {
                r matches Err(ManifestError::ConfigurationError(_))
            } else {
                exists|i: int|
                    0 <= i < map@.len() && map@[i].key@ == k && match component_of(
                        #[trigger] map@[i].manifest,
                        java_component@,
                    ) {
                        Some(Some(rt)) => r == Ok::<&JavaRuntime, ManifestError>(&rt),
                        _ => r matches Err(ManifestError::VersionRetrievalError(_)),
                    }
            }
        }),
{
    let key = determine_key_for_java_manifest(map, platform);
    let i = match position_of_key(map, key.as_str()) {
        Some(i) => i,
        None => {
            return Err(
                ManifestError::ConfigurationError(message("No java manifest for platform key: ", key.as_str())),
            );
        },
    };
    let m = &map[i].manifest;
    match runtime_component(m, java_component) {
        Some(Some(rt)) => Ok(rt),
        _ => Err(
            ManifestError::VersionRetrievalError(message("Java runtime is empty for component ", java_component)),
        ),
    }
}

/// The last index before `end` where `c` occurs, or -1.
pub open spec fn last_index_before(s: Seq<char>, c: char, end: int) -> int
    decreases end,
{
    if end <= 0 || end > s.len() {
        -1
    } else if s[end - 1] == c {
        end - 1
    } else {
        last_index_before(s, c, end - 1)
    }
}

/// Everything before the last `/` of a path; empty when it has none.
pub open spec fn parent_of(path: Seq<char>) -> Seq<char> {
    let i = last_index_before(path, '/', path.len() as int);
    if i < 0 {
        Seq::empty()
    } else {
        path.subrange(0, i)
    }
}

/// The parent directory of a path: everything before its last `/`.
pub fn parent_path(path: &str) -> (r: String)
    ensures
        r@ == parent_of(path@),
{
    let n = path.unicode_len();
    let mut end: usize = n;
    while end > 0
        invariant
            n == path@.len(),
            end <= n,
            last_index_before(path@, '/', n as int) == last_index_before(path@, '/', end as int),
        decreases end,
    {
        if path.get_char(end - 1) == '/' {
            return path.substring_char(0, end - 1).to_owned();
        }
        end = end - 1;
    }
    String::new()
}

/// Where a link's target lies: its declared target, taken relative to the
/// directory holding the link.
pub open spec fn link_source(link_path: Seq<char>, target: Seq<char>) -> Seq<char> {
    joined(parent_of(link_path), target)
}

/// One step of laying out a runtime under its directory.
pub enum MaterializeStep {
    /// Create this directory and its parents.
    CreateDirectory(String),
    /// Fetch and write this file (the path is relative to the runtime directory).
    WriteFile(JavaRuntimeFile),
    /// Link `path` to the existing `source`, unless `path` exists.
    CreateLink { path: String, source: String },
}

/// What creating a link comes to once the disk has been looked at.
#[derive(Debug, Clone, Copy, PartialEq, Eq, Structural)]
pub enum LinkAction {
    /// The link's path already exists: it is left as it is.
    Skip,
    /// The source is a directory: a symbolic link is made.
    Symlink,
    /// The source is a file: a hard link is made.
    HardLink,
}

/// Decides how a link step is carried out: skipped when its path exists,
/// else a symbolic link to a directory source or a hard link to a file source.
pub fn link_action(destination_exists: bool, source_is_dir: bool) -> (r: LinkAction)
    ensures
        destination_exists ==> r == LinkAction::Skip,
        !destination_exists && source_is_dir ==> r == LinkAction::Symlink,
        !destination_exists && !source_is_dir ==> r == LinkAction::HardLink,
{
    if destination_exists {
        LinkAction::Skip
    } else if source_is_dir {
        LinkAction::Symlink
    } else {
        LinkAction::HardLink
    }
}

/// A step, with its paths as views.
pub enum StepView {
    Directory(Seq<char>),
    File(JavaRuntimeFile),
    Link(Seq<char>, Seq<char>),
}

pub open spec fn step_view(s: MaterializeStep) -> StepView {
    match s {
        MaterializeStep::CreateDirectory(d) => StepView::Directory(d@),
        MaterializeStep::WriteFile(f) => StepView::File(f),
        MaterializeStep::CreateLink { path, source } => StepView::Link(path@, source@),
    }
}

pub open spec fn step_views(v: Seq<MaterializeStep>) -> Seq<StepView> {
    v.map_values(|s: MaterializeStep| step_view(s))
}

/// The first pass: a directory step for each directory entry, in manifest order.
pub open spec fn directory_steps(base: Seq<char>, entries: Seq<JavaRuntimeType>) -> Seq<StepView>
    decreases entries.len(),
{
    if entries.len() == 0 {
        Seq::empty()
    } else {
        let rest = directory_steps(base, entries.drop_last());
        match entries.last() {
            JavaRuntimeType::Directory(d) => rest.push(StepView::Directory(joined(base, d@))),
            _ => rest,
        }
    }
}

/// The second pass: a file step for each file entry, in manifest order.
pub open spec fn file_steps(entries: Seq<JavaRuntimeType>) -> Seq<StepView>
    decreases entries.len(),
{
    if entries.len() == 0 {
        Seq::empty()
    } else {
        let rest = file_steps(entries.drop_last());
        match entries.last() {
            JavaRuntimeType::File(f) => rest.push(StepView::File(f)),
            _ => rest,
        }
    }
}

/// The third pass: a link step for each link entry, in manifest order, its
/// source resolved against the link's own directory.
pub open spec fn link_steps(base: Seq<char>, entries: Seq<JavaRuntimeType>) -> Seq<StepView>
    decreases entries.len(),
{
    if entries.len() == 0 {
        Seq::empty()
    } else {
        let rest = link_steps(base, entries.drop_last());
        match entries.last() {
            JavaRuntimeType::Link { path, target } => rest.push(
                StepView::Link(joined(base, path@), link_source(joined(base, path@), target@)),
            ),
            _ => rest,
        }
    }
}

/// The steps that lay out a runtime manifest under `base`.
pub open spec fn materialization(base: Seq<char>, entries: Seq<JavaRuntimeType>) -> Seq<StepView> {
    directory_steps(base, entries) + file_steps(entries) + link_steps(base, entries)
}

impl JavaRuntimeFile {
    /// A field-by-field copy.
    pub fn duplicate(&self) -> (r: JavaRuntimeFile)
        ensures
            r == *self,
    {
        JavaRuntimeFile {
            path: self.path.clone(),
            download: self.download.duplicate(),
            executable: self.executable,
        }
    }
}

/// Lays out the steps that materialize a runtime manifest under `base_dir`:
/// every directory first, then every file, then every link.
pub fn plan_runtime(base_dir: &str, entries: &[JavaRuntimeType]) -> (r: Vec<MaterializeStep>)
    ensures
        step_views(r@) == materialization(base_dir@, entries@),
{
    let mut steps: Vec<MaterializeStep> = Vec::new();
    let n = entries.len();
    let mut i: usize = 0;
    while i < n
        invariant
            n == entries@.len(),
            i <= n,
            step_views(steps@) == directory_steps(base_dir@, entries@.subrange(0, i as int)),
        decreases n - i,
    {
        assert(entries@.subrange(0, i + 1).drop_last() =~= entries@.subrange(0, i as int));
        let ghost prev = step_views(steps@);
        if let JavaRuntimeType::Directory(d) = &entries[i] {
            steps.push(MaterializeStep::CreateDirectory(join_path(base_dir, d.as_str())));
        }
        assert(step_views(steps@) =~= directory_steps(base_dir@, entries@.subrange(0, i + 1)));
        i = i + 1;
    }
    assert(entries@.subrange(0, n as int) =~= entries@);
    let ghost after_dirs = step_views(steps@);
    i = 0;
    while i < n
        invariant
            n == entries@.len(),
            i <= n,
            step_views(steps@) == after_dirs + file_steps(entries@.subrange(0, i as int)),
        decreases n - i,
    {
        assert(entries@.subrange(0, i + 1).drop_last() =~= entries@.subrange(0, i as int));
        let ghost prev = step_views(steps@);
        if let JavaRuntimeType::File(f) = &entries[i] {
            let g = f.duplicate();
            steps.push(MaterializeStep::WriteFile(g));
            assert(step_views(steps@) =~= prev.push(StepView::File(g)));
        }
        assert(step_views(steps@) =~= after_dirs + file_steps(entries@.subrange(0, i + 1)));
        i = i + 1;
    }
    let ghost after_files = step_views(steps@);
    i = 0;
    while i < n
        invariant
            n == entries@.len(),
            i <= n,
            step_views(steps@) == after_files + link_steps(base_dir@, entries@.subrange(0, i as int)),
        decreases n - i,
    {
        assert(entries@.subrange(0, i + 1).drop_last() =~= entries@.subrange(0, i as int));
        let ghost prev = step_views(steps@);
        if let JavaRuntimeType::Link { path, target } = &entries[i] {
            let p = join_path(base_dir, path.as_str());
            let parent = parent_path(p.as_str());
            let source = join_path(parent.as_str(), target.as_str());
            let ghost link = StepView::Link(p@, source@);
            steps.push(MaterializeStep::CreateLink { path: p, source });
            assert(step_views(steps@) =~= prev.push(link));
        }
        assert(step_views(steps@) =~= after_files + link_steps(
            base_dir@,
            entries@.subrange(0, i + 1),
        ));
        i = i + 1;
    }
    steps
}

proof fn lemma_pass_kinds(base: Seq<char>, entries: Seq<JavaRuntimeType>)
    ensures
        forall|i: int|
            0 <= i < directory_steps(base, entries).len() ==> #[trigger] directory_steps(
                base,
                entries,
            )[i] is Directory,
        forall|i: int|
            0 <= i < file_steps(entries).len() ==> #[trigger] file_steps(entries)[i] is File,
        forall|i: int|
            0 <= i < link_steps(base, entries).len() ==> #[trigger] link_steps(base, entries)[i] is Link,
    decreases entries.len(),
{
    if entries.len() > 0 {
        lemma_pass_kinds(base, entries.drop_last());
    }
}

/// In the layout of any runtime manifest, every directory step comes before
/// every file step and every link step.
pub proof fn lemma_directories_first(base: Seq<char>, entries: Seq<JavaRuntimeType>, i: int, j: int)
    requires
        0 <= i < materialization(base, entries).len(),
        0 <= j < materialization(base, entries).len(),
        materialization(base, entries)[i] is Directory,
        !(materialization(base, entries)[j] is Directory),
    ensures
        i < j,
{
    lemma_pass_kinds(base, entries);
    let d = directory_steps(base, entries);
    let f = file_steps(entries);
    let l = link_steps(base, entries);
    if j < d.len() {
        assert(materialization(base, entries)[j] == d[j]);
    }
    if i >= d.len() {
        if i < d.len() + f.len() {
            assert(materialization(base, entries)[i] == f[i - d.len()]);
        } else {
            assert(materialization(base, entries)[i] == l[i - d.len() - f.len()]);
        }
    }
}

} // verus!
