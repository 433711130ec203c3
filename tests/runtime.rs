use autmc::{
    determine_key_for_java_manifest, is_known_java_component, is_supported_java_host,
    java_platform_keys_unique, link_action, LinkAction, parent_path, plan_runtime, select_java_runtime,
    DownloadMetadata, JavaManifest, JavaPlatformEntry, JavaRuntime, JavaRuntimeFile,
    JavaRuntimeType, ManifestError, MaterializeStep, Platform,
};

fn platform(os: &str, arch: &str) -> Platform {
    Platform { os: os.to_string(), arch: arch.to_string() }
}

fn meta(url: &str, sha1: &str) -> DownloadMetadata {
    DownloadMetadata { url: url.to_string(), sha1: sha1.to_string(), size: 1 }
}

fn runtime(name: &str) -> JavaRuntime {
    JavaRuntime { manifest: meta("https://example.invalid/m.json", "00"), version_name: name.to_string() }
}

fn manifest_with_gamma(name: &str) -> JavaManifest {
    JavaManifest {
        java_runtime_alpha: None,
        java_runtime_beta: None,
        java_runtime_gamma: Some(runtime(name)),
        jre_legacy: None,
        minecraft_java_exe: None,
    }
}

fn entry(key: &str, m: JavaManifest) -> JavaPlatformEntry {
    JavaPlatformEntry { key: key.to_string(), manifest: m }
}

#[test]
fn runtime_layout_is_directories_files_links() {
    let entries = vec![
        JavaRuntimeType::Directory("bin".to_string()),
        JavaRuntimeType::File(JavaRuntimeFile {
            path: "bin/java".to_string(),
            download: meta("https://example.invalid/java", "H"),
            executable: true,
        }),
        JavaRuntimeType::Link { path: "bin/javac".to_string(), target: "java".to_string() },
    ];
    let steps = plan_runtime("/data/java/gamma", &entries);
    assert_eq!(steps.len(), 3);
    match &steps[0] {
        MaterializeStep::CreateDirectory(d) => assert_eq!(d, "/data/java/gamma/bin"),
        _ => panic!("directory first"),
    }
    match &steps[1] {
        MaterializeStep::WriteFile(f) => {
            assert_eq!(f.path, "bin/java");
            assert_eq!(f.download.sha1, "H");
            assert!(f.executable);
        }
        _ => panic!("file second"),
    }
    match &steps[2] {
        MaterializeStep::CreateLink { path, source } => {
            assert_eq!(path, "/data/java/gamma/bin/javac");
            assert_eq!(source, "/data/java/gamma/bin/java");
        }
        _ => panic!("link last"),
    }
}

#[test]
fn directories_come_first_whatever_the_manifest_order() {
    let entries = vec![
        JavaRuntimeType::Link { path: "lib/l".to_string(), target: "f".to_string() },
        JavaRuntimeType::File(JavaRuntimeFile {
            path: "lib/f".to_string(),
            download: meta("u", "h"),
            executable: false,
        }),
        JavaRuntimeType::Directory("lib".to_string()),
        JavaRuntimeType::Directory("bin".to_string()),
    ];
    let steps = plan_runtime("r", &entries);
    let kinds: Vec<char> = steps
        .iter()
        .map(|s| match s {
            MaterializeStep::CreateDirectory(_) => 'd',
            MaterializeStep::WriteFile(_) => 'f',
            MaterializeStep::CreateLink { .. } => 'l',
        })
        .collect();
    assert_eq!(kinds, vec!['d', 'd', 'f', 'l']);
    match &steps[0] {
        MaterializeStep::CreateDirectory(d) => assert_eq!(d, "r/lib"),
        _ => panic!(),
    }
}

#[test]
fn parent_is_before_last_slash() {
    assert_eq!(parent_path("a/b/c"), "a/b");
    assert_eq!(parent_path("c"), "");
    assert_eq!(parent_path("/c"), "");
}

#[test]
fn java_key_follows_host() {
    let listed = vec![entry("linux", manifest_with_gamma("g")), entry("mac-os", manifest_with_gamma("g"))];
    assert_eq!(determine_key_for_java_manifest(&listed, &platform("linux", "x86_64")), "linux");
    assert_eq!(determine_key_for_java_manifest(&listed, &platform("macos", "aarch64")), "mac-os");
    let none: Vec<JavaPlatformEntry> = vec![];
    assert_eq!(determine_key_for_java_manifest(&none, &platform("linux", "x86")), "linux-i386");
    assert_eq!(determine_key_for_java_manifest(&none, &platform("macos", "aarch64")), "mac-os-arm64");
    assert_eq!(determine_key_for_java_manifest(&none, &platform("macos", "x86_64")), "mac-os");
    assert_eq!(determine_key_for_java_manifest(&none, &platform("windows", "x86")), "windows-x86");
    assert_eq!(
        determine_key_for_java_manifest(&none, &platform("windows", "x86_64")),
        "windows-x64"
    );
}

#[test]
fn unknown_host_is_not_supported() {
    let none: Vec<JavaPlatformEntry> = vec![];
    assert!(!is_supported_java_host(&none, &platform("windows", "aarch64")));
    assert!(!is_supported_java_host(&none, &platform("freebsd", "x86_64")));
    assert!(is_supported_java_host(&none, &platform("linux", "riscv64")));
    assert!(is_supported_java_host(&none, &platform("windows", "x86")));
    let listed = vec![entry("freebsd", manifest_with_gamma("g"))];
    assert!(is_supported_java_host(&listed, &platform("freebsd", "x86_64")));
    assert_eq!(determine_key_for_java_manifest(&listed, &platform("freebsd", "x86_64")), "freebsd");
}

#[test]
fn runtime_component_is_selected_for_host() {
    let map = vec![
        entry("windows-x64", manifest_with_gamma("w")),
        entry("linux", manifest_with_gamma("java-runtime-gamma")),
    ];
    let rt = select_java_runtime(&map, "java-runtime-gamma", &platform("linux", "x86_64")).unwrap();
    assert_eq!(rt.version_name, "java-runtime-gamma");
    let rt = select_java_runtime(&map, "java-runtime-gamma", &platform("windows", "x86_64")).unwrap();
    assert_eq!(rt.version_name, "w");
    match select_java_runtime(&map, "jre-legacy", &platform("linux", "x86_64")) {
        Err(ManifestError::VersionRetrievalError(m)) => {
            assert_eq!(m, "Java runtime is empty for component jre-legacy")
        }
        _ => panic!("missing component accepted"),
    }
    assert!(!is_known_java_component("java-runtime-omega"));
    assert!(is_known_java_component("minecraft-java-exe"));
    assert!(matches!(
        select_java_runtime(&map, "java-runtime-gamma", &platform("macos", "x86_64")),
        Err(ManifestError::ConfigurationError(_))
    ));
}

#[test]
fn duplicate_platform_keys_are_detected() {
    let map = vec![entry("linux", manifest_with_gamma("a")), entry("linux", manifest_with_gamma("b"))];
    assert!(!java_platform_keys_unique(&map));
    let map = vec![entry("linux", manifest_with_gamma("a")), entry("windows-x64", manifest_with_gamma("b"))];
    assert!(java_platform_keys_unique(&map));
}

#[test]
fn link_is_skipped_symbolic_or_hard() {
    assert_eq!(link_action(true, true), LinkAction::Skip);
    assert_eq!(link_action(true, false), LinkAction::Skip);
    assert_eq!(link_action(false, true), LinkAction::Symlink);
    assert_eq!(link_action(false, false), LinkAction::HardLink);
}
