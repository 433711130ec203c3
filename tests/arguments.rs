use autmc::{
    bind_account_arguments, build_classpath, construct_arguments, get_arg_substring,
    substitute_account_specific_arguments, substitute_game_arguments, substitute_jvm_arguments,
    Account, Argument, LaunchArgumentPaths, LaunchArguments, LoggingArgument, ManifestVersion,
    OsCondition, OsConditionKey, Platform, Rule, RuleAction, RulePredicate,
};

fn linux() -> Platform {
    Platform { os: "linux".to_string(), arch: "x86_64".to_string() }
}

fn windows() -> Platform {
    Platform { os: "windows".to_string(), arch: "x86_64".to_string() }
}

fn paths(libs: &[&str], jar: &str) -> LaunchArgumentPaths {
    LaunchArgumentPaths {
        logging: None,
        library_paths: libs.iter().map(|s| s.to_string()).collect(),
        instance_path: "/data/instances/main".to_string(),
        jar_path: jar.to_string(),
        asset_dir_path: "/data/assets".to_string(),
    }
}

fn version() -> ManifestVersion {
    ManifestVersion {
        id: "1.20.1".to_string(),
        url: "https://example.invalid/1.20.1.json".to_string(),
        sha1: "a9993e364706816aba3e25717850c26c9cd0d89d".to_string(),
        version_type: "release".to_string(),
    }
}

fn account() -> Account {
    Account {
        display_name: "Steve".to_string(),
        uuid: "0123-4567".to_string(),
        access_token: "token-xyz".to_string(),
    }
}

#[test]
fn classpath_joins_libraries_then_jar() {
    let p = paths(&["a", "b"], "j");
    assert_eq!(substitute_jvm_arguments("${classpath}", &p, &linux()), Some("a:b:j".to_string()));
    assert_eq!(
        substitute_jvm_arguments("${classpath}", &p, &windows()),
        Some("a;b;j".to_string())
    );
}

#[test]
fn classpath_of_no_libraries_is_the_jar() {
    assert_eq!(build_classpath(&[], "client.jar", ":"), "client.jar");
}

#[test]
fn string_without_placeholder_is_unchanged() {
    let p = paths(&["a"], "j");
    assert_eq!(substitute_jvm_arguments("-Xmx2G", &p, &linux()), None);
    assert_eq!(substitute_game_arguments("--demo", &version(), "5", &p), None);
    assert_eq!(get_arg_substring("-Xmx2G"), None);
}

#[test]
fn only_first_placeholder_is_substituted() {
    let p = paths(&["a"], "j");
    assert_eq!(
        substitute_jvm_arguments("${launcher_name}-${launcher_version}", &p, &linux()),
        Some("Autmc-${launcher_version}".to_string())
    );
    assert_eq!(
        substitute_jvm_arguments("${launcher_name}/${launcher_name}", &p, &linux()),
        Some("Autmc/${launcher_name}".to_string())
    );
}

#[test]
fn placeholder_span_is_first_dollar_to_first_brace() {
    assert_eq!(get_arg_substring("-Dx=${natives_directory}"), Some("${natives_directory}"));
    assert_eq!(get_arg_substring("}${a}"), None);
    assert_eq!(get_arg_substring("$HOME"), None);
}

#[test]
fn jvm_table_resolves_known_tokens() {
    let p = paths(&["a"], "j");
    assert_eq!(
        substitute_jvm_arguments("-Djava.library.path=${natives_directory}", &p, &linux()),
        Some("-Djava.library.path=/data/instances/main/natives".to_string())
    );
    assert_eq!(
        substitute_jvm_arguments("-Dminecraft.launcher.version=${launcher_version}", &p, &linux()),
        Some("-Dminecraft.launcher.version=1.0.0".to_string())
    );
    assert_eq!(substitute_jvm_arguments("${auth_uuid}", &p, &linux()), None);
}

#[test]
fn game_table_resolves_known_tokens_and_defers_account() {
    let p = paths(&[], "j");
    let v = version();
    assert_eq!(substitute_game_arguments("${version_name}", &v, "5", &p), Some("1.20.1".into()));
    assert_eq!(
        substitute_game_arguments("${game_directory}", &v, "5", &p),
        Some("/data/instances/main".into())
    );
    assert_eq!(substitute_game_arguments("${assets_root}", &v, "5", &p), Some("/data/assets".into()));
    assert_eq!(substitute_game_arguments("${assets_index_name}", &v, "5", &p), Some("5".into()));
    assert_eq!(substitute_game_arguments("${user_type}", &v, "5", &p), Some("mojang".into()));
    assert_eq!(substitute_game_arguments("${version_type}", &v, "5", &p), Some("release".into()));
    assert_eq!(substitute_game_arguments("${auth_player_name}", &v, "5", &p), None);
    assert_eq!(substitute_game_arguments("${resolution_width}", &v, "5", &p), None);
}

#[test]
fn account_tokens_bind_late() {
    let a = account();
    assert_eq!(
        substitute_account_specific_arguments("${auth_player_name}", &a),
        Some("Steve".to_string())
    );
    assert_eq!(substitute_account_specific_arguments("${auth_uuid}", &a), Some("0123-4567".into()));
    assert_eq!(
        substitute_account_specific_arguments("${auth_access_token}", &a),
        Some("token-xyz".into())
    );
    assert_eq!(substitute_account_specific_arguments("${clientid}", &a), None);
    assert_eq!(substitute_account_specific_arguments("${auth_xuid}", &a), None);
    let bound = bind_account_arguments(
        &["--username".to_string(), "${auth_player_name}".to_string()],
        &a,
    );
    assert_eq!(bound, vec!["--username".to_string(), "Steve".to_string()]);
}

#[test]
fn arguments_are_jvm_then_main_class_then_game() {
    let mut p = paths(&["/lib/a.jar"], "/v/client.jar");
    p.logging = Some(LoggingArgument {
        argument: "-Dlog4j.configurationFile=${path}".to_string(),
        path: "/data/logging/client-1.12.xml".to_string(),
    });
    let windows_only = Rule {
        action: RuleAction::Allow,
        predicate: Some(RulePredicate::OperatingSystem(vec![OsCondition {
            key: OsConditionKey::Name,
            value: "windows".to_string(),
        }])),
    };
    let args = LaunchArguments {
        jvm: vec![
            Argument::ConditionalArg {
                rules: vec![windows_only],
                values: vec!["-XX:HeapDumpPath=dump".to_string(), "-Xss1M".to_string()],
            },
            Argument::Arg("-cp".to_string()),
            Argument::Arg("${classpath}".to_string()),
        ],
        game: vec![
            Argument::Arg("--version".to_string()),
            Argument::Arg("${version_name}".to_string()),
            Argument::Arg("--username".to_string()),
            Argument::Arg("${auth_player_name}".to_string()),
        ],
    };
    let out = construct_arguments("net.minecraft.client.main.Main", &args, &version(), "5", &p, &linux());
    assert_eq!(
        out,
        vec![
            "-cp",
            "/lib/a.jar:/v/client.jar",
            "-Dlog4j.configurationFile=/data/logging/client-1.12.xml",
            "net.minecraft.client.main.Main",
            "--version",
            "1.20.1",
            "--username",
            "${auth_player_name}",
        ]
    );
    let on_windows =
        construct_arguments("Main", &args, &version(), "5", &paths(&[], "j"), &windows());
    assert_eq!(on_windows[0], "-XX:HeapDumpPath=dump");
    assert_eq!(on_windows[1], "-Xss1M");
    assert_eq!(on_windows[3], "j");
    assert_eq!(on_windows[4], "Main");
}
