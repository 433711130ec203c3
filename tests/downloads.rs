use autmc::{
    cached_copy_is_valid, check_download, plan_downloads, summarize_batch, validate_hash,
    verify_download, Artifact, AssetObjectEntry, DownloadError, DownloadMetadata, Downloadable,
    ItemOutcome, Library, ManifestError, BUFFER_SIZE,
};

const ABC_SHA1: &str = "a9993e364706816aba3e25717850c26c9cd0d89d";
const EMPTY_SHA1: &str = "da39a3ee5e6b4b0d3255bfef95601890afd80709";

fn library(name: &str, path: &str) -> Library {
    Library {
        name: name.to_string(),
        artifact: Artifact {
            path: path.to_string(),
            download: DownloadMetadata {
                url: format!("https://libraries.example.invalid/{}", path),
                sha1: ABC_SHA1.to_string(),
                size: 3,
            },
        },
        rules: None,
        natives: vec![],
        classifiers: vec![],
        extract: None,
    }
}

#[test]
fn hash_of_known_bytes_is_checked() {
    assert!(validate_hash(b"abc", ABC_SHA1));
    assert!(validate_hash(b"", EMPTY_SHA1));
    assert!(!validate_hash(b"abd", ABC_SHA1));
    assert!(!validate_hash(b"abc", "A9993E364706816ABA3E25717850C26C9CD0D89D"));
}

#[test]
fn batch_item_hash_mismatch_is_reported() {
    assert!(check_download(b"abc", ABC_SHA1, "lib").is_ok());
    match check_download(b"xyz", ABC_SHA1, "https://x.invalid/lib.jar") {
        Err(DownloadError::InvalidFileHashError(m)) => {
            assert_eq!(m, "Error downloading https://x.invalid/lib.jar, invalid hash.")
        }
        _ => panic!("mismatch not reported"),
    }
}

#[test]
fn primary_artifact_mismatch_is_invalid_download() {
    assert!(verify_download(b"abc", ABC_SHA1, "1.20.1").is_ok());
    match verify_download(b"abc", EMPTY_SHA1, "1.20.1") {
        Err(ManifestError::InvalidFileDownload(m)) => {
            assert_eq!(m, "Error downloading 1.20.1, invalid hash.")
        }
        _ => panic!("mismatch not reported"),
    }
}

#[test]
fn cached_copy_needs_matching_hash() {
    assert!(cached_copy_is_valid(Some(b"abc".as_slice()), ABC_SHA1));
    assert!(!cached_copy_is_valid(Some(b"ab".as_slice()), ABC_SHA1));
    assert!(!cached_copy_is_valid(None, ABC_SHA1));
}

#[test]
fn present_destinations_are_not_fetched() {
    let libs = vec![library("a", "a/a.jar"), library("b", "b/b.jar"), library("c", "c/c.jar")];
    let plan = plan_downloads(&libs, "/data/libraries", &[false, true, false]);
    assert_eq!(plan.len(), 2);
    assert_eq!(plan[0].index, 0);
    assert_eq!(plan[0].path, "/data/libraries/a/a.jar");
    assert_eq!(plan[0].url, "https://libraries.example.invalid/a/a.jar");
    assert_eq!(plan[0].hash, ABC_SHA1);
    assert_eq!(plan[1].index, 2);
    assert_eq!(plan[1].name, "c");
}

#[test]
fn rerun_after_success_fetches_nothing() {
    let libs = vec![library("a", "a.jar"), library("b", "b.jar")];
    let mut present = vec![false, true];
    let first = plan_downloads(&libs, "/l", &present);
    assert_eq!(first.len(), 1);
    for req in &first {
        present[req.index] = true;
    }
    assert!(plan_downloads(&libs, "/l", &present).is_empty());
}

#[test]
fn empty_batch_fetches_nothing() {
    let libs: Vec<Library> = vec![];
    assert!(plan_downloads(&libs, "/l", &[]).is_empty());
    assert_eq!(BUFFER_SIZE, 8);
}

#[test]
fn asset_objects_live_under_hash_prefix() {
    let asset = AssetObjectEntry {
        name: "minecraft/sounds/a.ogg".to_string(),
        hash: "bdf48ef6b5d0d23bbb02e17d04865216179f510a".to_string(),
        size: 10,
    };
    assert_eq!(
        asset.path("/data/assets/objects"),
        "/data/assets/objects/bd/bdf48ef6b5d0d23bbb02e17d04865216179f510a"
    );
    assert_eq!(
        asset.url(),
        "https://resources.download.minecraft.net/bd/bdf48ef6b5d0d23bbb02e17d04865216179f510a"
    );
    assert_eq!(asset.hash(), "bdf48ef6b5d0d23bbb02e17d04865216179f510a");
    let short = AssetObjectEntry { name: "x".to_string(), hash: "a".to_string(), size: 0 };
    assert_eq!(short.path("/o"), "/o/a/a");
}

#[test]
fn batch_report_keeps_failures_apart() {
    let outcomes = vec![
        (3usize, ItemOutcome::Written),
        (1, ItemOutcome::Failed(DownloadError::InvalidFileHashError("h".to_string()))),
        (0, ItemOutcome::Failed(DownloadError::RequestError("r".to_string()))),
        (2, ItemOutcome::Failed(DownloadError::FileWriteError("w".to_string()))),
        (4, ItemOutcome::Written),
    ];
    let report = summarize_batch(&outcomes);
    assert_eq!(report.written, vec![3, 4]);
    assert_eq!(report.hash_mismatches, vec![1]);
    assert_eq!(report.request_failures, vec![0]);
    assert_eq!(report.write_failures, vec![2]);
}

#[test]
fn every_error_carries_its_message() {
    let all = vec![
        ManifestError::HttpError("h".to_string()),
        ManifestError::SerializationFilesystemError("f".to_string()),
        ManifestError::Utf8DeserializationError("u".to_string()),
        ManifestError::JsonSerializationError("j".to_string()),
        ManifestError::VersionRetrievalError("v".to_string()),
        ManifestError::ResourceError("r".to_string()),
        ManifestError::InvalidFileDownload("i".to_string()),
        ManifestError::ConfigurationError("c".to_string()),
    ];
    let texts: Vec<&str> = all.iter().map(|e| e.text()).collect();
    assert_eq!(texts, vec!["h", "f", "u", "j", "v", "r", "i", "c"]);
    assert_eq!(DownloadError::RequestError("q".to_string()).text(), "q");
    assert_eq!(DownloadError::FileWriteError("w".to_string()).text(), "w");
    assert_eq!(DownloadError::InvalidFileHashError("x".to_string()).text(), "x");
}
