//! Which libraries a host uses, which native classifiers they bring, and which
//! archive entries of those classifiers are extracted.

use vstd::prelude::*;
use vstd::string::*;

use crate::arguments::opt_view;
use crate::manifest::{Artifact, DownloadableClassifier, ExtractionRule, Library};
use crate::rules::{rules_hold, rules_match, Platform};
use crate::text::{join_path, joined, str_eq};

verus! {

/// A library applies on a host when it has no rules or its rules hold.
pub open spec fn library_applies(lib: Library, p: Platform) -> bool {
    match lib.rules {
        None => true,
        Some(rules) => rules_hold(rules@, p),
    }
}

/// The libraries that apply on a host, in order.
pub open spec fn applicable(libs: Seq<Library>, p: Platform) -> Seq<Library>
    decreases libs.len(),
{
    if libs.len() == 0 {
        Seq::empty()
    } else {
        let rest = applicable(libs.drop_last(), p);
        if library_applies(libs.last(), p) {
            rest.push(libs.last())
        } else {
            rest
        }
    }
}

/// Keeps the libraries that apply on the host, in order.
pub fn select_libraries(libraries: Vec<Library>, platform: &Platform) -> (r: Vec<Library>)
    ensures
        r@ == applicable(libraries@, *platform),
{
    let ghost all = libraries@;
    let mut kept: Vec<Library> = Vec::new();
    for lib in it: libraries
        invariant
            it.seq() == all,
            kept@ == applicable(all.take(it.index() as int), *platform),
    {
        assert(all.take(it.index() + 1).drop_last() =~= all.take(it.index() as int));
        let keep = match &lib.rules {
            None => true,
            Some(rules) => rules_match(rules.as_slice(), platform),
        };
        if keep {
            kept.push(lib);
        }
    }
    assert(all.take(all.len() as int) =~= all);
    kept
}

/// Whether a library's natives map lists each operating system once and its
/// classifiers use each key once.
pub open spec fn library_keys_unique(lib: Library) -> bool {
    &&& forall|i: int, j: int|
        0 <= i < lib.natives@.len() && 0 <= j < lib.natives@.len() && i != j ==> (
        #[trigger] lib.natives@[i]).os@ != (#[trigger] lib.natives@[j]).os@
    &&& forall|i: int, j: int|
        0 <= i < lib.classifiers@.len() && 0 <= j < lib.classifiers@.len() && i != j ==> (
        #[trigger] lib.classifiers@[i]).key@ != (#[trigger] lib.classifiers@[j]).key@
}

impl Library {
    /// Whether the natives map lists each operating system once and the
    /// classifiers use each key once.
    pub fn has_unique_keys(&self) -> (r: bool)
        ensures
            r == library_keys_unique(*self),
    {
        let v = &self.natives;
        let n = v.len();
        let mut i: usize = 0;
        while i < n
            invariant
                v@ == self.natives@,
                n == v@.len(),
                i <= n,
                forall|a: int, b: int|
                    0 <= a < i && 0 <= b < n && a != b ==> (#[trigger] v@[a]).os@ != (
                    #[trigger] v@[b]).os@,
            decreases n - i,
        {
            let mut j: usize = 0;
            while j < n
                invariant
                    v@ == self.natives@,
                    n == v@.len(),
                    i < n,
                    j <= n,
                    forall|a: int, b: int|
                        0 <= a < i && 0 <= b < n && a != b ==> (#[trigger] v@[a]).os@ != (
                        #[trigger] v@[b]).os@,
                    forall|b: int| 0 <= b < j && b != i ==> v@[i as int].os@ != (#[trigger] v@[b]).os@,
                decreases n - j,
            {
                if j != i && str_eq(v[i].os.as_str(), v[j].os.as_str()) {
                    assert(v@[i as int].os@ == v@[j as int].os@);
                    return false;
                }
                j = j + 1;
            }
            i = i + 1;
        }
        let c = &self.classifiers;
        let m = c.len();
        i = 0;
        while i < m
            invariant
                v@ == self.natives@,
                c@ == self.classifiers@,
                m == c@.len(),
                i <= m,
                forall|a: int, b: int|
                    0 <= a < v@.len() && 0 <= b < v@.len() && a != b ==> (#[trigger] v@[a]).os@ != (
                    #[trigger] v@[b]).os@,
                forall|a: int, b: int|
                    0 <= a < i && 0 <= b < m && a != b ==> (#[trigger] c@[a]).key@ != (
                    #[trigger] c@[b]).key@,
            decreases m - i,
        {
            let mut j: usize = 0;
            while j < m
                invariant
                    c@ == self.classifiers@,
                    m == c@.len(),
                    i < m,
                    j <= m,
                    forall|a: int, b: int|
                        0 <= a < i && 0 <= b < m && a != b ==> (#[trigger] c@[a]).key@ != (
                        #[trigger] c@[b]).key@,
                    forall|b: int| 0 <= b < j && b != i ==> c@[i as int].key@ != (#[trigger] c@[b]).key@,
                decreases m - j,
            {
                if j != i && str_eq(c[i].key.as_str(), c[j].key.as_str()) {
                    assert(c@[i as int].key@ == c@[j as int].key@);
                    return false;
                }
                j = j + 1;
            }
            i = i + 1;
        }
        true
    }
}

/// The name under which a library's natives map lists an operating system:
/// `osx` for `macos`, the system's own name otherwise.
pub open spec fn natives_os_name(os: Seq<char>) -> Seq<char> {
    if os == "macos"@ {
        "osx"@
    } else {
        os
    }
}

/// Whether `i` is the first natives entry listing `os`.
pub open spec fn first_native(lib: Library, os: Seq<char>, i: int) -> bool {
    &&& 0 <= i < lib.natives@.len()
    &&& lib.natives@[i].os@ == os
    &&& forall|k: int| 0 <= k < i ==> (#[trigger] lib.natives@[k]).os@ != os
}

/// Whether `j` is the first classifier under `key`.
pub open spec fn first_classifier(lib: Library, key: Seq<char>, j: int) -> bool {
    &&& 0 <= j < lib.classifiers@.len()
    &&& lib.classifiers@[j].key@ == key
    &&& forall|k: int| 0 <= k < j ==> (#[trigger] lib.classifiers@[k]).key@ != key
}

/// The native classifier a library contributes on a host: the classifier its
/// natives map names for the host's operating system, if the library has it.
pub open spec fn native_classifier(lib: Library, p: Platform) -> Option<Artifact> {
    let os = natives_os_name(p.os@);
    if exists|i: int| first_native(lib, os, i) {
        let i = choose|i: int| first_native(lib, os, i);
        let key = lib.natives@[i].classifier@;
        if exists|j: int| first_classifier(lib, key, j) {
            let j = choose|j: int| first_classifier(lib, key, j);
            Some(lib.classifiers@[j].artifact)
        } else {
            None
        }
    } else {
        None
    }
}

/// What a classifier carries: its artifact, its name and its excluded prefixes.
pub open spec fn classifier_view(c: DownloadableClassifier) -> (Artifact, Seq<char>, Option<Seq<String>>) {
    (
        c.artifact,
        c.name@,
        match c.extraction_rule {
            Some(e) => Some(e.exclude@),
            None => None,
        },
    )
}

/// The classifier a library contributes on a host: the native artifact, named
/// after the library and carrying the library's excluded prefixes.
pub open spec fn native_classifier_view(lib: Library, p: Platform) -> Option<
    (Artifact, Seq<char>, Option<Seq<String>>),
> {
    match native_classifier(lib, p) {
        Some(a) => Some(
            (
                a,
                lib.name@,
                match lib.extract {
                    Some(e) => Some(e.exclude@),
                    None => None,
                },
            ),
        ),
        None => None,
    }
}

/// A copy of a list of strings.
fn copy_strings(v: &Vec<String>) -> (r: Vec<String>)
    ensures
        r@ == v@,
{
    let mut r: Vec<String> = Vec::new();
    let mut i: usize = 0;
    while i < v.len()
        invariant
            i <= v@.len(),
            r@ == v@.subrange(0, i as int),
        decreases v@.len() - i,
    {
        r.push(v[i].clone());
        assert(r@ =~= v@.subrange(0, i + 1));
        i = i + 1;
    }
    assert(v@.subrange(0, i as int) =~= v@);
    r
}

impl ExtractionRule {
    /// A field-by-field copy.
    pub fn duplicate(&self) -> (r: ExtractionRule)
        ensures
            r.exclude@ == self.exclude@,
    {
        ExtractionRule { exclude: copy_strings(&self.exclude) }
    }
}

/// The first natives entry of `lib` listing `os`.
fn find_native(lib: &Library, os: &str) -> (r: Option<usize>)
    ensures
        match r {
            Some(i) => first_native(*lib, os@, i as int),
            None => !exists|i: int| first_native(*lib, os@, i),
        },
{
    let mut i: usize = 0;
    while i < lib.natives.len()
        invariant
            i <= lib.natives@.len(),
            forall|k: int| 0 <= k < i ==> (#[trigger] lib.natives@[k]).os@ != os@,
        decreases lib.natives@.len() - i,
    {
        if str_eq(lib.natives[i].os.as_str(), os) {
            return Some(i);
        }
        i = i + 1;
    }
    None
}

/// The first classifier of `lib` under `key`.
fn find_classifier(lib: &Library, key: &str) -> (r: Option<usize>)
    ensures
        match r {
            Some(j) => first_classifier(*lib, key@, j as int),
            None => !exists|j: int| first_classifier(*lib, key@, j),
        },
{
    let mut j: usize = 0;
    while j < lib.classifiers.len()
        invariant
            j <= lib.classifiers@.len(),
            forall|k: int| 0 <= k < j ==> (#[trigger] lib.classifiers@[k]).key@ != key@,
        decreases lib.classifiers@.len() - j,
    {
        if str_eq(lib.classifiers[j].key.as_str(), key) {
            return Some(j);
        }
        j = j + 1;
    }
    None
}

/// The native classifier `lib` contributes on the host, named after the
/// library and carrying the library's extraction rule.
pub fn classifier_for(lib: &Library, platform: &Platform) -> (r: Option<DownloadableClassifier>)
    requires
        library_keys_unique(*lib),
    ensures
        match native_classifier_view(*lib, *platform) {
            Some(v) => r matches Some(c) && classifier_view(c) == v,
            None => r is None,
        },
        match native_classifier(*lib, *platform) {
            Some(a) => r matches Some(c) && c.artifact == a && c.name@ == lib.name@
                && match lib.extract {
                Some(e) => c.extraction_rule matches Some(ce) && ce.exclude@ == e.exclude@,
                None => c.extraction_rule is None,
            },
            None => r is None,
        },
{
    let os: &str = if str_eq(platform.os.as_str(), "macos") {
        "osx"
    } else {
        platform.os.as_str()
    };
    let i = match find_native(lib, os) {
        Some(i) => i,
        None => return None,
    };
    proof {
        let ci = choose|ci: int| first_native(*lib, os@, ci);
        if ci < i {
            assert(lib.natives@[ci].os@ != os@);
        }
        if ci > i {
            assert(lib.natives@[i as int].os@ != os@);
        }
    }
    let key = lib.natives[i].classifier.as_str();
    let j = match find_classifier(lib, key) {
        Some(j) => j,
        None => return None,
    };
    proof {
        let cj = choose|cj: int| first_classifier(*lib, key@, cj);
        if cj < j {
            assert(lib.classifiers@[cj].key@ != key@);
        }
        if cj > j {
            assert(lib.classifiers@[j as int].key@ != key@);
        }
        assert(os@ == natives_os_name(platform.os@));
        assert(native_classifier(*lib, *platform) == Some(lib.classifiers@[j as int].artifact));
    }
    let extraction_rule = match &lib.extract {
        Some(e) => Some(e.duplicate()),
        None => None,
    };
    Some(
        DownloadableClassifier {
            name: lib.name.clone(),
            artifact: lib.classifiers[j].artifact.duplicate(),
            extraction_rule,
        },
    )
}

/// The native classifiers the libraries contribute on a host, at most one
/// each, in library order.
pub open spec fn contributed(libs: Seq<Library>, p: Platform) -> Seq<
    (Artifact, Seq<char>, Option<Seq<String>>),
>
    decreases libs.len(),
{
    if libs.len() == 0 {
        Seq::empty()
    } else {
        let rest = contributed(libs.drop_last(), p);
        match native_classifier_view(libs.last(), p) {
            Some(a) => rest.push(a),
            None => rest,
        }
    }
}

/// Collects the native classifiers the libraries contribute on the host.
pub fn collect_classifiers(libraries: &[Library], platform: &Platform) -> (r: Vec<
    DownloadableClassifier,
>)
    requires
        forall|i: int| 0 <= i < libraries@.len() ==> library_keys_unique(#[trigger] libraries@[i]),
    ensures
        r@.map_values(|c: DownloadableClassifier| classifier_view(c)) == contributed(
            libraries@,
            *platform,
        ),
        r@.len() <= libraries@.len(),
{
    let mut r: Vec<DownloadableClassifier> = Vec::new();
    let mut i: usize = 0;
    while i < libraries.len()
        invariant
            i <= libraries@.len(),
            forall|k: int|
                0 <= k < libraries@.len() ==> library_keys_unique(#[trigger] libraries@[k]),
            r@.map_values(|c: DownloadableClassifier| classifier_view(c)) == contributed(
                libraries@.subrange(0, i as int),
                *platform,
            ),
            r@.len() <= i,
        decreases libraries@.len() - i,
    {
        assert(libraries@.subrange(0, i + 1).drop_last() =~= libraries@.subrange(0, i as int));
        let ghost prev = r@.map_values(|c: DownloadableClassifier| classifier_view(c));
        if let Some(c) = classifier_for(&libraries[i], platform) {
            let ghost a = classifier_view(c);
            r.push(c);
            assert(r@.map_values(|c: DownloadableClassifier| classifier_view(c)) =~= prev.push(a));
        }
        assert(r@.map_values(|c: DownloadableClassifier| classifier_view(c)) =~= contributed(
            libraries@.subrange(0, i + 1),
            *platform,
        ));
        i = i + 1;
    }
    assert(libraries@.subrange(0, i as int) =~= libraries@);
    r
}

/// A path with its trailing `/` characters removed.
pub open spec fn trimmed(s: Seq<char>) -> Seq<char>
    decreases s.len(),
{
    if s.len() > 0 && s.last() == '/' {
        trimmed(s.drop_last())
    } else {
        s
    }
}

/// Whether `path` lies under `prefix`, component by component: it is the
/// prefix itself or continues it after a `/`. An empty prefix covers every path.
pub open spec fn under_prefix(path: Seq<char>, prefix: Seq<char>) -> bool {
    let q = trimmed(prefix);
    q.len() == 0 || path == q || (path.len() > q.len() && path.subrange(0, q.len() as int) == q
        && path[q.len() as int] == '/')
}

/// Whether a path lies under one of the excluded prefixes.
pub open spec fn excluded_by(path: Seq<char>, exclude: Seq<String>) -> bool {
    exists|i: int| 0 <= i < exclude.len() && under_prefix(path, #[trigger] exclude[i]@)
}

/// Whether an archive entry is excluded by an extraction rule.
pub open spec fn excluded(path: Seq<char>, rule: Option<ExtractionRule>) -> bool {
    match rule {
        None => false,
        Some(r) => excluded_by(path, r.exclude@),
    }
}

/// Where an archive entry is extracted to, or `None` when it is a directory or
/// excluded.
pub open spec fn entry_destination(
    natives_dir: Seq<char>,
    entry: Seq<char>,
    is_dir: bool,
    rule: Option<ExtractionRule>,
) -> Option<Seq<char>> {
    if is_dir || excluded(entry, rule) {
        None
    } else {
        Some(joined(natives_dir, entry))
    }
}

/// The length of `s` without its trailing `/` characters.
fn trimmed_len(s: &str) -> (r: usize)
    ensures
        r <= s@.len(),
        trimmed(s@) == s@.subrange(0, r as int),
{
    let n = s.unicode_len();
    let mut end: usize = n;
    assert(s@.subrange(0, n as int) =~= s@);
    while end > 0 && s.get_char(end - 1) == '/'
        invariant
            n == s@.len(),
            end <= n,
            trimmed(s@) == trimmed(s@.subrange(0, end as int)),
        decreases end,
    {
        assert(s@.subrange(0, end as int).drop_last() =~= s@.subrange(0, end - 1));
        end = end - 1;
    }
    end
}

/// Whether `path` lies under `prefix`, component by component.
pub fn path_starts_with(path: &str, prefix: &str) -> (r: bool)
    ensures
        r == under_prefix(path@, prefix@),
{
    let q_len = trimmed_len(prefix);
    let q = prefix.substring_char(0, q_len);
    let n = path.unicode_len();
    if q_len == 0 {
        return true;
    }
    if str_eq(path, q) {
        return true;
    }
    if n > q_len {
        str_eq(path.substring_char(0, q_len), q) && path.get_char(q_len) == '/'
    } else {
        false
    }
}

/// Whether an archive entry is excluded by an extraction rule.
pub fn entry_is_excluded(path: &str, rule: &Option<ExtractionRule>) -> (r: bool)
    ensures
        r == excluded(path@, *rule),
{
    match rule {
        None => false,
        Some(r) => {
            let mut i: usize = 0;
            while i < r.exclude.len()
                invariant
                    *rule == Some(*r),
                    i <= r.exclude@.len(),
                    forall|k: int| 0 <= k < i ==> !under_prefix(path@, #[trigger] r.exclude@[k]@),
                decreases r.exclude@.len() - i,
            {
                if path_starts_with(path, r.exclude[i].as_str()) {
                    assert(under_prefix(path@, r.exclude@[i as int]@));
                    return true;
                }
                i = i + 1;
            }
            false
        },
    }
}

/// Where an archive entry of a classifier is extracted to under the natives
/// directory; `None` for directory entries and excluded entries.
pub fn native_entry_target(
    natives_dir: &str,
    entry: &str,
    is_dir: bool,
    rule: &Option<ExtractionRule>,
) -> (r: Option<String>)
    ensures
        opt_view(r) == entry_destination(natives_dir@, entry@, is_dir, *rule),
{
    if is_dir || entry_is_excluded(entry, rule) {
        None
    } else {
        Some(join_path(natives_dir, entry))
    }
}

} // verus!
