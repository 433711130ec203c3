use autmc::{
    classifier_for, collect_classifiers, native_entry_target, path_starts_with, select_libraries,
    Artifact, Classifier, DownloadMetadata, ExtractionRule, Library, NativeKey, OsCondition,
    OsConditionKey, Platform, ResourceManager, Rule, RuleAction, RulePredicate,
};

fn platform(os: &str) -> Platform {
    Platform { os: os.to_string(), arch: "x86_64".to_string() }
}

fn artifact(path: &str) -> Artifact {
    Artifact {
        path: path.to_string(),
        download: DownloadMetadata { url: format!("u/{}", path), sha1: "h".to_string(), size: 1 },
    }
}

fn lib(name: &str, rules: Option<Vec<Rule>>) -> Library {
    Library {
        name: name.to_string(),
        artifact: artifact(&format!("{}.jar", name)),
        rules,
        natives: vec![],
        classifiers: vec![],
        extract: None,
    }
}

fn native_lib(name: &str) -> Library {
    let mut l = lib(name, None);
    l.natives = vec![
        NativeKey { os: "linux".to_string(), classifier: "natives-linux".to_string() },
        NativeKey { os: "osx".to_string(), classifier: "natives-macos".to_string() },
    ];
    l.classifiers = vec![Classifier {
        key: "natives-linux".to_string(),
        artifact: artifact(&format!("{}-natives-linux.jar", name)),
    }];
    l.extract = Some(ExtractionRule { exclude: vec!["META-INF/".to_string()] });
    l
}

fn not_on_windows() -> Vec<Rule> {
    vec![Rule {
        action: RuleAction::Disallow,
        predicate: Some(RulePredicate::OperatingSystem(vec![OsCondition {
            key: OsConditionKey::Name,
            value: "windows".to_string(),
        }])),
    }]
}

#[test]
fn library_rules_select_per_host() {
    let libs = || vec![lib("a", None), lib("b", Some(not_on_windows())), lib("c", Some(vec![]))];
    let on_linux: Vec<String> =
        select_libraries(libs(), &platform("linux")).into_iter().map(|l| l.name).collect();
    assert_eq!(on_linux, vec!["a", "b", "c"]);
    let on_windows: Vec<String> =
        select_libraries(libs(), &platform("windows")).into_iter().map(|l| l.name).collect();
    assert_eq!(on_windows, vec!["a", "c"]);
}

#[test]
fn library_paths_follow_libraries() {
    let m = ResourceManager::new("/data");
    let paths = m.library_paths(&[lib("a", None), lib("b", None)]);
    assert_eq!(paths, vec!["/data/libraries/a.jar", "/data/libraries/b.jar"]);
}

#[test]
fn each_library_contributes_at_most_one_classifier() {
    let libs = vec![native_lib("lwjgl"), lib("plain", None), native_lib("glfw")];
    let linux = collect_classifiers(&libs, &platform("linux"));
    assert_eq!(linux.len(), 2);
    assert_eq!(linux[0].artifact.path, "lwjgl-natives-linux.jar");
    assert_eq!(linux[0].name, "lwjgl");
    assert_eq!(linux[1].artifact.path, "glfw-natives-linux.jar");
    assert_eq!(linux[0].extraction_rule.as_ref().unwrap().exclude, vec!["META-INF/"]);
    assert!(collect_classifiers(&libs, &platform("windows")).is_empty());
    assert!(classifier_for(&native_lib("x"), &platform("macos")).is_none());
}

#[test]
fn exclusion_is_by_whole_components() {
    assert!(path_starts_with("META-INF/MANIFEST.MF", "META-INF/"));
    assert!(path_starts_with("META-INF", "META-INF"));
    assert!(!path_starts_with("META-INFO/x", "META-INF/"));
    assert!(path_starts_with("anything", ""));
}

#[test]
fn native_entries_skip_directories_and_exclusions() {
    let rule = Some(ExtractionRule { exclude: vec!["META-INF/".to_string()] });
    assert_eq!(
        native_entry_target("/i/natives", "liblwjgl.so", false, &rule),
        Some("/i/natives/liblwjgl.so".to_string())
    );
    assert_eq!(native_entry_target("/i/natives", "META-INF/MANIFEST.MF", false, &rule), None);
    assert_eq!(native_entry_target("/i/natives", "linux/", true, &rule), None);
    assert_eq!(
        native_entry_target("/i/natives", "META-INF/x", false, &None),
        Some("/i/natives/META-INF/x".to_string())
    );
}

#[test]
fn repeated_library_keys_are_detected() {
    assert!(native_lib("x").has_unique_keys());
    let mut l = native_lib("x");
    l.natives.push(NativeKey { os: "linux".to_string(), classifier: "other".to_string() });
    assert!(!l.has_unique_keys());
    let mut l = native_lib("x");
    l.classifiers.push(Classifier { key: "natives-linux".to_string(), artifact: artifact("y.jar") });
    assert!(!l.has_unique_keys());
}

#[test]
fn classifier_without_extraction_rule_has_none() {
    let mut l = native_lib("lwjgl");
    l.extract = None;
    let c = classifier_for(&l, &platform("linux")).unwrap();
    assert!(c.extraction_rule.is_none());
    assert_eq!(c.name, "lwjgl");
}
