//! Launch arguments: placeholder scanning, substitution and assembly.
//!
//! A placeholder is the span from the first `$` to the first `}` of a string.
//! Only that span is replaced, and only when it names a token that the table in
//! use can resolve; any other string is kept as it is.

use vstd::prelude::*;
use vstd::string::*;

use crate::manifest::ManifestVersion;
use crate::rules::{rules_hold, rules_match, Platform, Rule};
use crate::text::{join_path, joined, str_eq};

verus! {

/// The launcher's name, as given to `${launcher_name}`.
pub const LAUNCHER_NAME: &'static str = "Autmc";

/// The launcher's version, as given to `${launcher_version}`.
pub const LAUNCHER_VERSION: &'static str = "1.0.0";

/// The user type given to `${user_type}`.
pub const USER_TYPE: &'static str = "mojang";

/// One entry of an argument list.
pub enum Argument {
    /// A plain argument.
    Arg(String),
    /// Values that are all included, or all left out, as the rules decide.
    ConditionalArg { rules: Vec<Rule>, values: Vec<String> },
}

/// The JVM and game argument lists of a version manifest.
pub struct LaunchArguments {
    pub jvm: Vec<Argument>,
    pub game: Vec<Argument>,
}

/// The logging argument template and the configuration file it points at.
pub struct LoggingArgument {
    pub argument: String,
    pub path: String,
}

/// Paths known before launch that placeholders resolve to.
pub struct LaunchArgumentPaths {
    pub logging: Option<LoggingArgument>,
    pub library_paths: Vec<String>,
    pub instance_path: String,
    pub jar_path: String,
    pub asset_dir_path: String,
}

/// The account whose identity is bound into the arguments at launch.
pub struct Account {
    pub display_name: String,
    pub uuid: String,
    pub access_token: String,
}

/// The two argument lists that are substituted before launch.
#[derive(Clone, Copy, PartialEq, Eq, Structural)]
pub enum ArgumentStage {
    Jvm,
    Game,
}

/// The first index at or after `start` where `c` occurs, or -1.
pub open spec fn index_from(s: Seq<char>, c: char, start: int) -> int
    decreases s.len() - start,
{
    if start < 0 || start >= s.len() {
        -1
    } else if s[start] == c {
        start
    } else {
        index_from(s, c, start + 1)
    }
}

/// The first index of `c` in `s`, or -1.
pub open spec fn first_index(s: Seq<char>, c: char) -> int {
    index_from(s, c, 0)
}

/// The placeholder span of `s`: from its first `$` to its first `}`, both
/// included, when both occur in that order.
pub open spec fn span(s: Seq<char>) -> Option<(int, int)> {
    let st = first_index(s, '$');
    let en = first_index(s, '}');
    if 0 <= st && st <= en {
        Some((st, en))
    } else {
        None
    }
}

/// The placeholder token of `s`, if it has one.
pub open spec fn token_of(s: Seq<char>) -> Option<Seq<char>> {
    match span(s) {
        Some((st, en)) => Some(s.subrange(st, en + 1)),
        None => None,
    }
}

/// `s` with the span `st..=en` replaced by `v`.
pub open spec fn splice(s: Seq<char>, st: int, en: int, v: Seq<char>) -> Seq<char> {
    s.subrange(0, st) + v + s.subrange(en + 1, s.len() as int)
}

/// `s` with the span replaced, when a value is at hand.
pub open spec fn spliced(s: Seq<char>, st: int, en: int, v: Option<Seq<char>>) -> Option<
    Seq<char>,
> {
    match v {
        Some(x) => Some(splice(s, st, en, x)),
        None => None,
    }
}

/// The path-list separator of an operating system.
pub open spec fn list_separator(os: Seq<char>) -> Seq<char> {
    if os == "windows"@ {
        ";"@
    } else {
        ":"@
    }
}

/// Every library path followed by the separator.
pub open spec fn classpath_prefix(libs: Seq<String>, sep: Seq<char>) -> Seq<char>
    decreases libs.len(),
{
    if libs.len() == 0 {
        Seq::empty()
    } else {
        classpath_prefix(libs.drop_last(), sep) + libs.last()@ + sep
    }
}

/// The library paths and then the jar path, joined by the separator.
pub open spec fn classpath(libs: Seq<String>, jar: Seq<char>, sep: Seq<char>) -> Seq<char> {
    classpath_prefix(libs, sep) + jar
}

/// What a JVM-argument token resolves to.
pub open spec fn jvm_value(token: Seq<char>, paths: LaunchArgumentPaths, sep: Seq<char>) -> Option<
    Seq<char>,
> {
    if token == "${natives_directory}"@ {
        Some(joined(paths.instance_path@, "natives"@))
    } else if token == "${launcher_name}"@ {
        Some(LAUNCHER_NAME@)
    } else if token == "${launcher_version}"@ {
        Some(LAUNCHER_VERSION@)
    } else if token == "${classpath}"@ {
        Some(classpath(paths.library_paths@, paths.jar_path@, sep))
    } else {
        None
    }
}

/// What a game-argument token resolves to. Account and resolution tokens are
/// left for later.
pub open spec fn game_value(
    token: Seq<char>,
    version: ManifestVersion,
    asset_index: Seq<char>,
    paths: LaunchArgumentPaths,
) -> Option<Seq<char>> {
    if token == "${version_name}"@ {
        Some(version.id@)
    } else if token == "${game_directory}"@ {
        Some(paths.instance_path@)
    } else if token == "${assets_root}"@ {
        Some(paths.asset_dir_path@)
    } else if token == "${assets_index_name}"@ {
        Some(asset_index)
    } else if token == "${user_type}"@ {
        Some(USER_TYPE@)
    } else if token == "${version_type}"@ {
        Some(version.version_type@)
    } else {
        None
    }
}

/// What an account token resolves to.
pub open spec fn account_value(token: Seq<char>, account: Account) -> Option<Seq<char>> {
    if token == "${auth_player_name}"@ {
        Some(account.display_name@)
    } else if token == "${auth_uuid}"@ {
        Some(account.uuid@)
    } else if token == "${auth_access_token}"@ {
        Some(account.access_token@)
    } else {
        None
    }
}

/// A JVM argument with its placeholder resolved, if it has a resolvable one.
pub open spec fn jvm_substitution(s: Seq<char>, paths: LaunchArgumentPaths, sep: Seq<char>) -> Option<
    Seq<char>,
> {
    match span(s) {
        Some((st, en)) => spliced(s, st, en, jvm_value(s.subrange(st, en + 1), paths, sep)),
        None => None,
    }
}

/// A game argument with its placeholder resolved, if it has a resolvable one.
pub open spec fn game_substitution(
    s: Seq<char>,
    version: ManifestVersion,
    asset_index: Seq<char>,
    paths: LaunchArgumentPaths,
) -> Option<Seq<char>> {
    match span(s) {
        Some((st, en)) => spliced(
            s,
            st,
            en,
            game_value(s.subrange(st, en + 1), version, asset_index, paths),
        ),
        None => None,
    }
}

/// An argument with its account placeholder resolved, if it has one.
pub open spec fn account_substitution(s: Seq<char>, account: Account) -> Option<Seq<char>> {
    match span(s) {
        Some((st, en)) => spliced(s, st, en, account_value(s.subrange(st, en + 1), account)),
        None => None,
    }
}

/// The substituted string, or the string itself.
pub open spec fn or_same(s: Seq<char>, r: Option<Seq<char>>) -> Seq<char> {
    match r {
        Some(x) => x,
        None => s,
    }
}

/// The text that one value of a stage's argument list becomes.
pub open spec fn arg_text(
    stage: ArgumentStage,
    s: Seq<char>,
    paths: LaunchArgumentPaths,
    version: ManifestVersion,
    asset_index: Seq<char>,
    p: Platform,
) -> Seq<char> {
    match stage {
        ArgumentStage::Jvm => or_same(s, jvm_substitution(s, paths, list_separator(p.os@))),
        ArgumentStage::Game => or_same(s, game_substitution(s, version, asset_index, paths)),
    }
}

/// What one entry of an argument list contributes.
pub open spec fn expand_one(
    stage: ArgumentStage,
    a: Argument,
    paths: LaunchArgumentPaths,
    version: ManifestVersion,
    asset_index: Seq<char>,
    p: Platform,
) -> Seq<Seq<char>> {
    match a {
        Argument::Arg(v) => seq![arg_text(stage, v@, paths, version, asset_index, p)],
        Argument::ConditionalArg { rules, values } => if rules_hold(rules@, p) {
            Seq::new(
                values@.len(),
                |k: int| arg_text(stage, values@[k]@, paths, version, asset_index, p),
            )
        } else {
            Seq::empty()
        },
    }
}

/// What a whole argument list contributes, in order.
pub open spec fn expand(
    stage: ArgumentStage,
    args: Seq<Argument>,
    paths: LaunchArgumentPaths,
    version: ManifestVersion,
    asset_index: Seq<char>,
    p: Platform,
) -> Seq<Seq<char>>
    decreases args.len(),
{
    if args.len() == 0 {
        Seq::empty()
    } else {
        expand(stage, args.drop_last(), paths, version, asset_index, p) + expand_one(
            stage,
            args.last(),
            paths,
            version,
            asset_index,
            p,
        )
    }
}

/// The logging argument, when there is one and it holds a placeholder.
pub open spec fn logging_part(paths: LaunchArgumentPaths) -> Seq<Seq<char>> {
    match paths.logging {
        Some(l) => match span(l.argument@) {
            Some((st, en)) => seq![splice(l.argument@, st, en, l.path@)],
            None => Seq::empty(),
        },
        None => Seq::empty(),
    }
}

/// The character views of a list of strings.
pub open spec fn views(v: Seq<String>) -> Seq<Seq<char>> {
    v.map_values(|s: String| s@)
}

/// An optional string, by its view.
pub open spec fn opt_view(o: Option<String>) -> Option<Seq<char>> {
    match o {
        Some(s) => Some(s@),
        None => None,
    }
}

/// The full launch argument list: the JVM arguments (the logging argument
/// last among them), the main class, then the game arguments.
pub open spec fn launch_arguments(
    main_class: Seq<char>,
    arguments: LaunchArguments,
    version: ManifestVersion,
    asset_index: Seq<char>,
    paths: LaunchArgumentPaths,
    p: Platform,
) -> Seq<Seq<char>> {
    expand(ArgumentStage::Jvm, arguments.jvm@, paths, version, asset_index, p) + logging_part(
        paths,
    ) + seq![main_class] + expand(ArgumentStage::Game, arguments.game@, paths, version, asset_index, p)
}

proof fn lemma_index_from(s: Seq<char>, c: char, start: int)
    requires
        0 <= start,
    ensures
        index_from(s, c, start) == -1 || (start <= index_from(s, c, start) < s.len() && s[index_from(
            s,
            c,
            start,
        )] == c),
    decreases s.len() - start,
{
    if start < s.len() && s[start] != c {
        lemma_index_from(s, c, start + 1);
    }
}

/// A span always lies inside its string.
pub proof fn lemma_span_bounds(s: Seq<char>)
    ensures
        span(s) matches Some((st, en)) ==> 0 <= st <= en < s.len() && s[st] == '$' && s[en] == '}',
{
    lemma_index_from(s, '$', 0);
    lemma_index_from(s, '}', 0);
}

/// The first index of `c` in `s`.
fn first_index_of(s: &str, c: char) -> (r: Option<usize>)
    ensures
        s@.len() <= usize::MAX,
        match r {
            Some(i) => first_index(s@, c) == i as int,
            None => first_index(s@, c) == -1,
        },
{
    let n = s.unicode_len();
    let mut i: usize = 0;
    while i < n
        invariant
            n == s@.len(),
            i <= n,
            first_index(s@, c) == index_from(s@, c, i as int),
        decreases n - i,
    {
        if s.get_char(i) == c {
            return Some(i);
        }
        i = i + 1;
    }
    None
}

/// Locates the placeholder span of `arg`: its first `$` and its first `}`.
pub fn placeholder_span(arg: &str) -> (r: Option<(usize, usize)>)
    ensures
        match r {
            Some((st, en)) => span(arg@) == Some((st as int, en as int)) && en < arg@.len()
                <= usize::MAX,
            None => span(arg@) is None,
        },
{
    proof {
        lemma_span_bounds(arg@);
    }
    match (first_index_of(arg, '$'), first_index_of(arg, '}')) {
        (Some(st), Some(en)) => {
            if st <= en {
                Some((st, en))
            } else {
                None
            }
        },
        _ => None,
    }
}

/// The placeholder token inside `arg`, if it has one.
pub fn get_arg_substring(arg: &str) -> (r: Option<&str>)
    ensures
        match r {
            Some(t) => token_of(arg@) == Some(t@),
            None => token_of(arg@) is None,
        },
{
    match placeholder_span(arg) {
        Some((st, en)) => Some(arg.substring_char(st, en + 1)),
        None => None,
    }
}

/// `arg` with the span `st..=en` replaced by `value`.
fn splice_span(arg: &str, st: usize, en: usize, value: &str) -> (r: String)
    requires
        st <= en < arg@.len(),
    ensures
        r@ == splice(arg@, st as int, en as int, value@),
{
    let n = arg.unicode_len();
    let mut r = arg.substring_char(0, st).to_owned();
    r.append(value);
    r.append(arg.substring_char(en + 1, n));
    r
}

/// The path-list separator of the host: `;` on Windows, `:` elsewhere.
pub fn path_list_separator(platform: &Platform) -> (r: &'static str)
    ensures
        r@ == list_separator(platform.os@),
{
    if str_eq(platform.os.as_str(), "windows") {
        ";"
    } else {
        ":"
    }
}

/// Joins the library paths and then the jar path with `separator`.
pub fn build_classpath(library_paths: &[String], jar_path: &str, separator: &str) -> (r: String)
    ensures
        r@ == classpath(library_paths@, jar_path@, separator@),
{
    let mut r = String::new();
    let mut i: usize = 0;
    while i < library_paths.len()
        invariant
            i <= library_paths@.len(),
            r@ == classpath_prefix(library_paths@.subrange(0, i as int), separator@),
        decreases library_paths@.len() - i,
    {
        assert(library_paths@.subrange(0, i + 1).drop_last() =~= library_paths@.subrange(
            0,
            i as int,
        ));
        r.append(library_paths[i].as_str());
        r.append(separator);
        i = i + 1;
    }
    assert(library_paths@.subrange(0, i as int) =~= library_paths@);
    r.append(jar_path);
    r
}

/// What a JVM token resolves to.
fn jvm_placeholder_value(token: &str, paths: &LaunchArgumentPaths, separator: &str) -> (r: Option<
    String,
>)
    ensures
        opt_view(r) == jvm_value(token@, *paths, separator@),
{
    if str_eq(token, "${natives_directory}") {
        Some(join_path(paths.instance_path.as_str(), "natives"))
    } else if str_eq(token, "${launcher_name}") {
        Some(LAUNCHER_NAME.to_owned())
    } else if str_eq(token, "${launcher_version}") {
        Some(LAUNCHER_VERSION.to_owned())
    } else if str_eq(token, "${classpath}") {
        Some(build_classpath(paths.library_paths.as_slice(), paths.jar_path.as_str(), separator))
    } else {
        None
    }
}

/// What a game token resolves to.
fn game_placeholder_value(
    token: &str,
    version: &ManifestVersion,
    asset_index: &str,
    paths: &LaunchArgumentPaths,
) -> (r: Option<String>)
    ensures
        opt_view(r) == game_value(token@, *version, asset_index@, *paths),
{
    if str_eq(token, "${version_name}") {
        Some(version.id.clone())
    } else if str_eq(token, "${game_directory}") {
        Some(paths.instance_path.clone())
    } else if str_eq(token, "${assets_root}") {
        Some(paths.asset_dir_path.clone())
    } else if str_eq(token, "${assets_index_name}") {
        Some(asset_index.to_owned())
    } else if str_eq(token, "${user_type}") {
        Some(USER_TYPE.to_owned())
    } else if str_eq(token, "${version_type}") {
        Some(version.version_type.clone())
    } else {
        None
    }
}

/// What an account token resolves to.
fn account_placeholder_value(token: &str, account: &Account) -> (r: Option<String>)
    ensures
        opt_view(r) == account_value(token@, *account),
{
    if str_eq(token, "${auth_player_name}") {
        Some(account.display_name.clone())
    } else if str_eq(token, "${auth_uuid}") {
        Some(account.uuid.clone())
    } else if str_eq(token, "${auth_access_token}") {
        Some(account.access_token.clone())
    } else {
        None
    }
}

/// A JVM argument with its placeholder resolved, or `None` when it has no
/// placeholder this stage resolves.
pub fn substitute_jvm_arguments(
    arg: &str,
    argument_paths: &LaunchArgumentPaths,
    platform: &Platform,
) -> (r: Option<String>)
    ensures
        opt_view(r) == jvm_substitution(arg@, *argument_paths, list_separator(platform.os@)),
{
    match placeholder_span(arg) {
        Some((st, en)) => {
            let token = arg.substring_char(st, en + 1);
            let separator = path_list_separator(platform);
            match jvm_placeholder_value(token, argument_paths, separator) {
                Some(v) => Some(splice_span(arg, st, en, v.as_str())),
                None => None,
            }
        },
        None => None,
    }
}

/// A game argument with its placeholder resolved, or `None` when it has no
/// placeholder this stage resolves (account tokens among them).
pub fn substitute_game_arguments(
    arg: &str,
    mc_version: &ManifestVersion,
    asset_index: &str,
    argument_paths: &LaunchArgumentPaths,
) -> (r: Option<String>)
    ensures
        opt_view(r) == game_substitution(arg@, *mc_version, asset_index@, *argument_paths),
{
    match placeholder_span(arg) {
        Some((st, en)) => {
            let token = arg.substring_char(st, en + 1);
            match game_placeholder_value(token, mc_version, asset_index, argument_paths) {
                Some(v) => Some(splice_span(arg, st, en, v.as_str())),
                None => None,
            }
        },
        None => None,
    }
}

/// An argument with its account placeholder bound to `active_account`, or
/// `None` when it has none.
pub fn substitute_account_specific_arguments(arg: &str, active_account: &Account) -> (r: Option<
    String,
>)
    ensures
        opt_view(r) == account_substitution(arg@, *active_account),
{
    match placeholder_span(arg) {
        Some((st, en)) => {
            let token = arg.substring_char(st, en + 1);
            match account_placeholder_value(token, active_account) {
                Some(v) => Some(splice_span(arg, st, en, v.as_str())),
                None => None,
            }
        },
        None => None,
    }
}

/// The text one value of a stage's list becomes.
fn substitute_for_stage(
    stage: ArgumentStage,
    value: &String,
    paths: &LaunchArgumentPaths,
    version: &ManifestVersion,
    asset_index: &str,
    platform: &Platform,
) -> (r: String)
    ensures
        r@ == arg_text(stage, value@, *paths, *version, asset_index@, *platform),
{
    let sub = match stage {
        ArgumentStage::Jvm => substitute_jvm_arguments(value.as_str(), paths, platform),
        ArgumentStage::Game => substitute_game_arguments(
            value.as_str(),
            version,
            asset_index,
            paths,
        ),
    };
    match sub {
        Some(s) => s,
        None => value.clone(),
    }
}

/// Appends what a stage's argument list contributes to `out`.
fn push_expanded(
    out: &mut Vec<String>,
    stage: ArgumentStage,
    args: &[Argument],
    paths: &LaunchArgumentPaths,
    version: &ManifestVersion,
    asset_index: &str,
    platform: &Platform,
)
    ensures
        views(final(out)@) == views(old(out)@) + expand(
            stage,
            args@,
            *paths,
            *version,
            asset_index@,
            *platform,
        ),
{
    let ghost start = views(out@);
    let mut i: usize = 0;
    while i < args.len()
        invariant
            i <= args@.len(),
            views(out@) == start + expand(
                stage,
                args@.subrange(0, i as int),
                *paths,
                *version,
                asset_index@,
                *platform,
            ),
        decreases args@.len() - i,
    {
        let ghost before = views(out@);
        assert(args@.subrange(0, i + 1).drop_last() =~= args@.subrange(0, i as int));
        match &args[i] {
            Argument::Arg(v) => {
                let s = substitute_for_stage(stage, v, paths, version, asset_index, platform);
                out.push(s);
                assert(views(out@) =~= before + expand_one(
                    stage,
                    args@[i as int],
                    *paths,
                    *version,
                    asset_index@,
                    *platform,
                ));
            },
            Argument::ConditionalArg { rules, values } => {
                if rules_match(rules.as_slice(), platform) {
                    let mut k: usize = 0;
                    while k < values.len()
                        invariant
                            k <= values@.len(),
                            views(out@) =~= before + Seq::new(
                                k as nat,
                                |j: int|
                                    arg_text(
                                        stage,
                                        values@[j]@,
                                        *paths,
                                        *version,
                                        asset_index@,
                                        *platform,
                                    ),
                            ),
                        decreases values@.len() - k,
                    {
                        let s = substitute_for_stage(
                            stage,
                            &values[k],
                            paths,
                            version,
                            asset_index,
                            platform,
                        );
                        let ghost prev = views(out@);
                        out.push(s);
                        assert(views(out@) =~= prev.push(s@));
                        k = k + 1;
                    }
                }
                assert(views(out@) =~= before + expand_one(
                    stage,
                    args@[i as int],
                    *paths,
                    *version,
                    asset_index@,
                    *platform,
                ));
            },
        }
        i = i + 1;
    }
    assert(args@.subrange(0, i as int) =~= args@);
}

/// Builds the launch argument list: the substituted JVM arguments, the
/// logging argument, the main class, then the substituted game arguments.
/// Conditional groups are kept whole or left out whole, as their rules decide.
pub fn construct_arguments(
    main_class: &str,
    arguments: &LaunchArguments,
    mc_version: &ManifestVersion,
    asset_index: &str,
    argument_paths: &LaunchArgumentPaths,
    platform: &Platform,
) -> (r: Vec<String>)
    ensures
        views(r@) == launch_arguments(
            main_class@,
            *arguments,
            *mc_version,
            asset_index@,
            *argument_paths,
            *platform,
        ),
{
    let mut formatted: Vec<String> = Vec::new();
    push_expanded(
        &mut formatted,
        ArgumentStage::Jvm,
        arguments.jvm.as_slice(),
        argument_paths,
        mc_version,
        asset_index,
        platform,
    );
    let ghost after_jvm = views(formatted@);
    if let Some(logging) = &argument_paths.logging {
        if let Some((st, en)) = placeholder_span(logging.argument.as_str()) {
            let s = splice_span(logging.argument.as_str(), st, en, logging.path.as_str());
            formatted.push(s);
        }
    }
    assert(views(formatted@) =~= after_jvm + logging_part(*argument_paths));
    let ghost after_logging = views(formatted@);
    formatted.push(main_class.to_owned());
    assert(views(formatted@) =~= after_logging + seq![main_class@]);
    push_expanded(
        &mut formatted,
        ArgumentStage::Game,
        arguments.game.as_slice(),
        argument_paths,
        mc_version,
        asset_index,
        platform,
    );
    assert(views(formatted@) =~= launch_arguments(
        main_class@,
        *arguments,
        *mc_version,
        asset_index@,
        *argument_paths,
        *platform,
    ));
    formatted
}

/// Whether `s` holds `${` somewhere.
pub open spec fn has_opening(s: Seq<char>) -> bool {
    exists|i: int| 0 <= i < s.len() - 1 && s[i] == '$' && #[trigger] s[i + 1] == '{'
}

/// Every token that a table resolves starts with `${`.
proof fn lemma_tokens_open(
    token: Seq<char>,
    paths: LaunchArgumentPaths,
    sep: Seq<char>,
    version: ManifestVersion,
    asset_index: Seq<char>,
    account: Account,
)
    ensures
        (jvm_value(token, paths, sep) is Some || game_value(token, version, asset_index, paths) is Some
            || account_value(token, account) is Some) ==> token.len() >= 2 && token[0] == '$'
            && token[1] == '{',
{
    reveal_strlit("${natives_directory}");
    reveal_strlit("${launcher_name}");
    reveal_strlit("${launcher_version}");
    reveal_strlit("${classpath}");
    reveal_strlit("${version_name}");
    reveal_strlit("${game_directory}");
    reveal_strlit("${assets_root}");
    reveal_strlit("${assets_index_name}");
    reveal_strlit("${user_type}");
    reveal_strlit("${version_type}");
    reveal_strlit("${auth_player_name}");
    reveal_strlit("${auth_uuid}");
    reveal_strlit("${auth_access_token}");
}

/// A string without `${` is returned unchanged by both substitution stages,
/// and the account pass finds nothing in it.
pub proof fn lemma_no_opening_unchanged(
    s: Seq<char>,
    paths: LaunchArgumentPaths,
    version: ManifestVersion,
    asset_index: Seq<char>,
    p: Platform,
    account: Account,
)
    requires
        !has_opening(s),
    ensures
        arg_text(ArgumentStage::Jvm, s, paths, version, asset_index, p) == s,
        arg_text(ArgumentStage::Game, s, paths, version, asset_index, p) == s,
        account_substitution(s, account) is None,
{
    lemma_span_bounds(s);
    if let Some((st, en)) = span(s) {
        let token = s.subrange(st, en + 1);
        lemma_tokens_open(token, paths, list_separator(p.os@), version, asset_index, account);
        if token.len() >= 2 && token[1] == '{' {
            assert(s[st] == '$' && s[st + 1] == '{');
            assert(has_opening(s));
        }
    }
}

/// Each substitution replaces at most the span of the first placeholder: the
/// result is the string itself, or the string with that one span replaced, so
/// every later `${...}` is kept verbatim.
pub proof fn lemma_only_first_placeholder(
    stage: ArgumentStage,
    s: Seq<char>,
    paths: LaunchArgumentPaths,
    version: ManifestVersion,
    asset_index: Seq<char>,
    p: Platform,
)
    ensures
        arg_text(stage, s, paths, version, asset_index, p) == s || (span(s) matches Some((st, en))
            && exists|v: Seq<char>|
            arg_text(stage, s, paths, version, asset_index, p) == #[trigger] splice(s, st, en, v)),
{
    if let Some((st, en)) = span(s) {
        let r = arg_text(stage, s, paths, version, asset_index, p);
        if r != s {
            let token = s.subrange(st, en + 1);
            let v = match stage {
                ArgumentStage::Jvm => jvm_value(token, paths, list_separator(p.os@))->Some_0,
                ArgumentStage::Game => game_value(token, version, asset_index, paths)->Some_0,
            };
            assert(r == splice(s, st, en, v));
        }
    }
}

/// The account pass likewise replaces at most the span of the first placeholder.
pub proof fn lemma_account_only_first_placeholder(s: Seq<char>, account: Account)
    ensures
        account_substitution(s, account) matches Some(r) ==> span(s) matches Some((st, en))
            && r == splice(s, st, en, account_value(s.subrange(st, en + 1), account)->Some_0),
{
}

/// The arguments with the account bound: each one with its account
/// placeholder resolved, the others as they are.
pub open spec fn bound_arguments(args: Seq<String>, account: Account) -> Seq<Seq<char>> {
    Seq::new(args.len(), |i: int| or_same(args[i]@, account_substitution(args[i]@, account)))
}

/// Binds the account into stored launch arguments, at launch time.
pub fn bind_account_arguments(arguments: &[String], active_account: &Account) -> (r: Vec<String>)
    ensures
        views(r@) == bound_arguments(arguments@, *active_account),
{
    let mut r: Vec<String> = Vec::new();
    let mut i: usize = 0;
    while i < arguments.len()
        invariant
            i <= arguments@.len(),
            views(r@) =~= bound_arguments(arguments@.subrange(0, i as int), *active_account),
        decreases arguments@.len() - i,
    {
        let s = match substitute_account_specific_arguments(arguments[i].as_str(), active_account) {
            Some(s) => s,
            None => arguments[i].clone(),
        };
        let ghost prev = views(r@);
        r.push(s);
        assert(views(r@) =~= prev.push(s@));
        i = i + 1;
    }
    assert(arguments@.subrange(0, i as int) =~= arguments@);
    r
}

/// The configuration an instance is stored with: its name, the java executable
/// and the launch arguments, account placeholders still in them.
pub struct InstanceConfiguration {
    pub instance_name: String,
    pub jvm_path: String,
    pub arguments: Vec<String>,
}

} // verus!
