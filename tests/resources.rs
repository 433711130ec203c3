use autmc::{
    cached_copy_is_valid, verify_download, AssetIndex, DownloadMetadata, JarType, LoggingConfiguration,
    ManifestError, ManifestVersion, ResourceManager, VanillaManifest,
};

const ABC_SHA1: &str = "a9993e364706816aba3e25717850c26c9cd0d89d";

fn version(id: &str, version_type: &str) -> ManifestVersion {
    ManifestVersion {
        id: id.to_string(),
        url: format!("https://example.invalid/{}.json", id),
        sha1: ABC_SHA1.to_string(),
        version_type: version_type.to_string(),
    }
}

fn loaded() -> ResourceManager {
    let mut m = ResourceManager::new("/data");
    m.set_vanilla_manifest(VanillaManifest {
        versions: vec![
            version("1.20.1", "release"),
            version("23w31a", "snapshot"),
            version("b1.7.3", "old_beta"),
            version("1.19.4", "release"),
        ],
    });
    m
}

#[test]
fn requested_version_is_fetched_verified_and_cached() {
    let m = loaded();
    let plan = m.plan_vanilla_version("1.20.1").unwrap();
    assert_eq!(plan.url, "https://example.invalid/1.20.1.json");
    assert_eq!(plan.sha1, ABC_SHA1);
    assert_eq!(plan.path, "/data/versions/1.20.1.json");
    assert!(!cached_copy_is_valid(None, &plan.sha1));
    assert!(verify_download(b"abc", &plan.sha1, &plan.label).is_ok());
    assert!(cached_copy_is_valid(Some(b"abc".as_slice()), &plan.sha1));
}

#[test]
fn unknown_version_is_not_found() {
    let m = loaded();
    match m.plan_vanilla_version("9.9.9") {
        Err(ManifestError::VersionRetrievalError(msg)) => {
            assert_eq!(msg, "Cannot find version with id: 9.9.9")
        }
        _ => panic!("unknown version accepted"),
    }
}

#[test]
fn manifest_must_be_loaded_first() {
    let m = ResourceManager::new("/data");
    assert!(!m.has_vanilla_manifest());
    assert!(matches!(m.find_version("1.20.1"), Err(ManifestError::ResourceError(_))));
    assert!(m.get_vanilla_version_list(true).is_empty());
}

#[test]
fn version_list_filters_snapshots() {
    let m = loaded();
    assert_eq!(m.get_vanilla_version_list(false), vec!["1.20.1", "1.19.4"]);
    assert_eq!(m.get_vanilla_version_list(true), vec!["1.20.1", "23w31a", "b1.7.3", "1.19.4"]);
}

#[test]
fn cache_layout_under_app_dir() {
    let m = ResourceManager::new("/data");
    assert_eq!(m.app_dir(), "/data");
    assert_eq!(m.version_dir(), "/data/versions");
    assert_eq!(m.libraries_dir(), "/data/libraries");
    assert_eq!(m.logging_dir(), "/data/logging");
    assert_eq!(m.assets_dir(), "/data/assets");
    assert_eq!(m.java_dir(), "/data/java");
    assert_eq!(m.get_version_file_path("1.20.1"), "/data/versions/1.20.1.json");
    assert_eq!(m.game_jar_path(JarType::Client, "1.20.1"), "/data/versions/1.20.1/client.jar");
    assert_eq!(m.game_jar_path(JarType::Server, "1.20.1"), "/data/versions/1.20.1/server.jar");
    assert_eq!(m.asset_objects_dir(), "/data/assets/objects");
    assert_eq!(m.java_executable_path("java-runtime-gamma"), "/data/java/java-runtime-gamma/bin/java");
    assert_eq!(m.instance_dir("main"), "/data/instances/main");
    let index = AssetIndex {
        id: "5".to_string(),
        download: DownloadMetadata { url: "u".to_string(), sha1: "s".to_string(), size: 1 },
    };
    assert_eq!(m.asset_index_path(&index), "/data/assets/indexes/5.json");
    let logging = LoggingConfiguration {
        id: "client-1.12.xml".to_string(),
        argument: "-Dlog4j.configurationFile=${path}".to_string(),
        download: DownloadMetadata { url: "lu".to_string(), sha1: "ls".to_string(), size: 1 },
    };
    let plan = m.plan_logging_configuration(&logging);
    assert_eq!(plan.path, "/data/logging/client-1.12.xml");
    assert_eq!(plan.url, "lu");
    let jar = m.plan_game_jar(JarType::Client, &logging.download, "1.20.1");
    assert_eq!(jar.path, "/data/versions/1.20.1/client.jar");
    assert_eq!(jar.sha1, "ls");
}

#[test]
fn repeated_version_ids_are_detected() {
    let dup = VanillaManifest { versions: vec![version("1.20.1", "release"), version("1.20.1", "snapshot")] };
    assert!(!dup.has_unique_ids());
    let ok = VanillaManifest { versions: vec![version("1.20.1", "release"), version("1.19.4", "release")] };
    assert!(ok.has_unique_ids());
}
