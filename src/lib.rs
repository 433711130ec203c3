//! Manifest-driven acquisition and launch configuration for game installations.
//!
//! The library decides; the surrounding program performs network and disk work
//! and hands the results back as plain values.

pub mod arguments;
pub mod digest;
pub mod downloader;
pub mod error;
pub mod libraries;
pub mod manifest;
pub mod resources;
pub mod rules;
pub mod runtime;
pub mod text;

pub use arguments::{
    bind_account_arguments, build_classpath, construct_arguments, get_arg_substring,
    path_list_separator, placeholder_span, substitute_account_specific_arguments,
    substitute_game_arguments, substitute_jvm_arguments, Account, Argument, InstanceConfiguration,
    LaunchArgumentPaths, LaunchArguments, LoggingArgument,
};
pub use digest::{cached_copy_is_valid, check_download, validate_hash, verify_download};
pub use downloader::{
    plan_downloads, summarize_batch, BatchReport, Downloadable, FetchRequest, ItemOutcome,
    BUFFER_SIZE,
};
pub use error::{DownloadError, ManifestError};
pub use libraries::{
    classifier_for, collect_classifiers, native_entry_target, path_starts_with, select_libraries,
};
pub use manifest::{
    Artifact, AssetIndex, AssetObject, AssetObjectEntry, Classifier, DownloadMetadata,
    DownloadableClassifier, ExtractionRule, JarType, JavaManifest, JavaPlatformEntry, JavaRuntime,
    JavaRuntimeFile, JavaRuntimeManifest, JavaRuntimeType, JavaVersion, Library,
    LoggingConfiguration, ManifestVersion, NativeKey, VanillaManifest, VanillaVersion,
};
pub use resources::{CachedDownload, ResourceManager};
pub use rules::{
    rule_matches, rules_match, FeatureCondition, OsCondition, OsConditionKey, Platform, Rule,
    RuleAction, RulePredicate,
};
pub use runtime::{
    determine_key_for_java_manifest, is_known_java_component, is_supported_java_host,
    java_platform_keys_unique, link_action, parent_path, plan_runtime, select_java_runtime,
    LinkAction, MaterializeStep,
};
pub use text::{join_path, str_eq};
