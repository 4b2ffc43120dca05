//! Build configuration of the WiredTiger sources: the platform filters of
//! the source list, the feature table and the generation of the
//! configuration header and of `wiredtiger.h` from their templates.

use vstd::prelude::*;

use crate::build_laws::{
    lemma_filelist_complete, lemma_filelist_sound, lemma_wiredtiger_h_no_placeholder_left,
    names_file,
};
use crate::text::{
    chars_end_with, chars_eq, chars_start_with, lemma_replace_absent, occurs, replace, replace_chars, starts_with, chars_of, ends_with, lines, push_char, push_chars, split_lines,
    split_whitespace, str_eq, string_of, trim, trim_chars, views, words,
};

verus! {

/// A table of configuration features, each enabled or disabled. Inserting a
/// feature again overrides its earlier value.
pub struct FeatureMap {
    entries: Vec<(Vec<char>, bool)>,
}

/// The map that a sequence of insertions builds, later insertions winning.
pub open spec fn entries_map(entries: Seq<(Vec<char>, bool)>) -> Map<Seq<char>, bool>
    decreases entries.len(),
{
    if entries.len() == 0 {
        Map::empty()
    } else {
        entries_map(entries.drop_last()).insert(entries.last().0@, entries.last().1)
    }
}

impl View for FeatureMap {
    type V = Map<Seq<char>, bool>;

    closed spec fn view(&self) -> Map<Seq<char>, bool> {
        entries_map(self.entries@)
    }
}

proof fn lemma_entries_map_prefix(entries: Seq<(Vec<char>, bool)>, i: int, key: Seq<char>)
    requires
        0 <= i <= entries.len(),
        forall|k: int| i <= k < entries.len() ==> (#[trigger] entries[k]).0@ != key,
    ensures
        entries_map(entries).contains_key(key) == entries_map(entries.take(i)).contains_key(key),
        entries_map(entries)[key] == entries_map(entries.take(i))[key],
    decreases entries.len() - i,
{
    if i < entries.len() {
        assert(entries.drop_last().take(i) =~= entries.take(i));
        lemma_entries_map_prefix(entries.drop_last(), i, key);
    } else {
        assert(entries.take(i) =~= entries);
    }
}

impl FeatureMap {
    /// An empty table.
    pub fn new() -> (m: FeatureMap)
        ensures
            m@ == Map::<Seq<char>, bool>::empty(),
    {
        FeatureMap { entries: Vec::new() }
    }

    /// Sets feature `key` to `value`.
    pub fn insert(&mut self, key: &str, value: bool)
        ensures
            final(self)@ == old(self)@.insert(key@, value),
    {
        let k = chars_of(key);
        self.entries.push((k, value));
        assert(self.entries@.drop_last() =~= old(self).entries@);
    }

    /// The value of the feature whose name has the characters `key`.
    pub fn get_chars(&self, key: &[char]) -> (r: Option<bool>)
        ensures
            r == (if self@.contains_key(key@) {
                Some(self@[key@])
            } else {
                None
            }),
    {
        let mut i: usize = self.entries.len();
        while i > 0
            invariant
                i <= self.entries@.len(),
                forall|k: int| i <= k < self.entries@.len() ==> (#[trigger] self.entries@[k]).0@
                    != key@,
            decreases i,
        {
            let e = &self.entries[i - 1];
            if chars_eq(e.0.as_slice(), key) {
                proof {
                    lemma_entries_map_prefix(self.entries@, i as int, key@);
                    let t = self.entries@.take(i as int);
                    assert(t.drop_last() =~= self.entries@.take(i - 1));
                }
                return Some(e.1);
            }
            i = i - 1;
        }
        proof {
            lemma_entries_map_prefix(self.entries@, 0, key@);
            assert(self.entries@.take(0) =~= Seq::<(Vec<char>, bool)>::empty());
        }
        None
    }

    /// The value of feature `key`.
    pub fn get(&self, key: &str) -> (r: Option<bool>)
        ensures
            r == (if self@.contains_key(key@) {
                Some(self@[key@])
            } else {
                None
            }),
    {
        let k = chars_of(key);
        self.get_chars(k.as_slice())
    }
}

/// A feature read after it is set gives the value set; setting a feature
/// leaves every other feature as it was.
pub proof fn lemma_feature_read_after_insert(
    features: Map<Seq<char>, bool>,
    key: Seq<char>,
    value: bool,
    other: Seq<char>,
)
    requires
        other != key,
    ensures
        features.insert(key, value).contains_key(key),
        features.insert(key, value)[key] == value,
        features.insert(key, value).contains_key(other) == features.contains_key(other),
        features.contains_key(other) ==> features.insert(key, value)[other] == features[other],
{
}

/// The line that a `#cmakedefine` line of the configuration template becomes:
/// `#define SYMBOL [VALUE]` when the symbol is an enabled feature,
/// `/* #undef SYMBOL */` when it is disabled or unknown, and the line inside a
/// comment when it names no symbol.
pub open spec fn cmakedefine_output(line: Seq<char>, features: Map<Seq<char>, bool>) -> Seq<
    char,
> {
    let parts = words(line);
    if parts.len() < 2 {
        "/* "@ + line + " */"@
    } else {
        let symbol = parts[1];
        if features.contains_key(symbol) && features[symbol] {
            if parts.len() > 2 {
                "#define "@ + symbol + " "@ + parts[2]
            } else {
                "#define "@ + symbol
            }
        } else {
            "/* #undef "@ + symbol + " */"@
        }
    }
}

/// Processes a `#cmakedefine` line of the configuration template.
///
/// As CMake does, `#cmakedefine VAR 0` gives `/* #undef VAR */` when `VAR`
/// is disabled, not `#define VAR 0`, so that `defined(VAR)` stays false.
pub fn process_cmakedefine(line: &str, features: &FeatureMap) -> (out: String)
    ensures
        out@ == cmakedefine_output(line@, features@),
{
    let cs = chars_of(line);
    let parts = split_whitespace(cs.as_slice());
    proof {
        assert(views(parts@).len() == parts@.len());
    }
    if parts.len() < 2 {
        let mut out = String::from_str("/* ");
        out.append(line);
        out.append(" */");
        return out;
    }
    let symbol = &parts[1];
    proof {
        assert(views(parts@)[1] == parts@[1]@);
    }
    let enabled = match features.get_chars(symbol.as_slice()) {
        Some(b) => b,
        None => false,
    };
    if enabled {
        let mut out = String::from_str("#define ");
        push_chars(&mut out, symbol.as_slice());
        if parts.len() > 2 {
            proof {
                assert(views(parts@)[2] == parts@[2]@);
            }
            out.append(" ");
            push_chars(&mut out, parts[2].as_slice());
        }
        out
    } else {
        let mut out = String::from_str("/* #undef ");
        push_chars(&mut out, symbol.as_slice());
        out.append(" */");
        out
    }
}

/// The source-list filter of a target architecture (`CARGO_CFG_TARGET_ARCH`).
pub open spec fn arch_filter(arch: Seq<char>) -> Seq<char> {
    if arch == "x86"@ || arch == "x86_64"@ {
        "X86_HOST"@
    } else if arch == "aarch64"@ {
        "ARM64_HOST"@
    } else if arch == "powerpc"@ || arch == "powerpc64"@ {
        "POWERPC_HOST"@
    } else if arch == "riscv64"@ {
        "RISCV64_HOST"@
    } else if arch == "loongarch64"@ {
        "LOONGARCH64_HOST"@
    } else if arch == "s390x"@ {
        "ZSERIES_HOST"@
    } else {
        ""@
    }
}

/// The source-list filter of the target architecture `arch`; an unset
/// architecture is the empty string.
pub fn get_arch_filter(arch: &str) -> (f: &'static str)
    ensures
        f@ == arch_filter(arch@),
{
    if str_eq(arch, "x86") || str_eq(arch, "x86_64") {
        "X86_HOST"
    } else if str_eq(arch, "aarch64") {
        "ARM64_HOST"
    } else if str_eq(arch, "powerpc") || str_eq(arch, "powerpc64") {
        "POWERPC_HOST"
    } else if str_eq(arch, "riscv64") {
        "RISCV64_HOST"
    } else if str_eq(arch, "loongarch64") {
        "LOONGARCH64_HOST"
    } else if str_eq(arch, "s390x") {
        "ZSERIES_HOST"
    } else {
        ""
    }
}

/// The source-list filter of a target operating system (`CARGO_CFG_TARGET_OS`).
pub open spec fn os_filter(os: Seq<char>) -> Seq<char> {
    if os == "macos"@ || os == "ios"@ {
        "DARWIN_HOST"@
    } else if os == "linux"@ || os == "android"@ {
        "LINUX_HOST"@
    } else if os == "windows"@ {
        "WINDOWS_HOST"@
    } else {
        ""@
    }
}

/// The source-list filter of the target operating system `os`; an unset
/// operating system is the empty string.
pub fn get_os_filter(os: &str) -> (f: &'static str)
    ensures
        f@ == os_filter(os@),
{
    if str_eq(os, "macos") || str_eq(os, "ios") {
        "DARWIN_HOST"
    } else if str_eq(os, "linux") || str_eq(os, "android") {
        "LINUX_HOST"
    } else if str_eq(os, "windows") {
        "WINDOWS_HOST"
    } else {
        ""
    }
}

/// Whether a target operating system is POSIX-compatible.
pub open spec fn posix_os(os: Seq<char>) -> bool {
    ||| os == "macos"@
    ||| os == "ios"@
    ||| os == "linux"@
    ||| os == "android"@
    ||| os == "freebsd"@
    ||| os == "openbsd"@
    ||| os == "netbsd"@
    ||| os == "dragonfly"@
}

/// Whether the target operating system `os` is POSIX-compatible.
pub fn is_posix(os: &str) -> (b: bool)
    ensures
        b == posix_os(os@),
{
    str_eq(os, "macos") || str_eq(os, "ios") || str_eq(os, "linux") || str_eq(os, "android")
        || str_eq(os, "freebsd") || str_eq(os, "openbsd") || str_eq(os, "netbsd") || str_eq(
        os,
        "dragonfly",
    )
}

/// The spinlock implementation of a target operating system.
pub open spec fn spinlock_type(os: Seq<char>) -> Seq<char> {
    if os == "macos"@ || os == "ios"@ || os == "linux"@ || os == "android"@ {
        "SPINLOCK_PTHREAD_MUTEX"@
    } else if os == "windows"@ {
        "SPINLOCK_MSVC"@
    } else {
        "SPINLOCK_PTHREAD_MUTEX"@
    }
}

/// The spinlock implementation for the target operating system `os`.
pub fn get_spinlock_type(os: &str) -> (t: &'static str)
    ensures
        t@ == spinlock_type(os@),
{
    if str_eq(os, "macos") || str_eq(os, "ios") || str_eq(os, "linux") || str_eq(os, "android") {
        "SPINLOCK_PTHREAD_MUTEX"
    } else if str_eq(os, "windows") {
        "SPINLOCK_MSVC"
    } else {
        "SPINLOCK_PTHREAD_MUTEX"
    }
}

/// Whether `filter` is a platform filter that the source list may use
/// (or no filter at all).
pub open spec fn known_filter(filter: Seq<char>) -> bool {
    ||| filter.len() == 0
    ||| filter == "X86_HOST"@
    ||| filter == "ARM64_HOST"@
    ||| filter == "POWERPC_HOST"@
    ||| filter == "RISCV64_HOST"@
    ||| filter == "LOONGARCH64_HOST"@
    ||| filter == "ZSERIES_HOST"@
    ||| filter == "DARWIN_HOST"@
    ||| filter == "LINUX_HOST"@
    ||| filter == "WINDOWS_HOST"@
    ||| filter == "POSIX_HOST"@
}

/// Whether `filter` is a known platform filter; files with an unknown
/// filter are excluded, with a warning.
pub fn is_known_filter(filter: &str) -> (b: bool)
    ensures
        b == known_filter(filter@),
{
    filter.is_empty() || str_eq(filter, "X86_HOST") || str_eq(filter, "ARM64_HOST") || str_eq(
        filter,
        "POWERPC_HOST",
    ) || str_eq(filter, "RISCV64_HOST") || str_eq(filter, "LOONGARCH64_HOST") || str_eq(
        filter,
        "ZSERIES_HOST",
    ) || str_eq(filter, "DARWIN_HOST") || str_eq(filter, "LINUX_HOST") || str_eq(
        filter,
        "WINDOWS_HOST",
    ) || str_eq(filter, "POSIX_HOST")
}

/// Whether a source file with platform filter `filter` is built: files
/// without a filter always are, architecture and operating-system filters
/// must name the target's, `POSIX_HOST` needs a POSIX target, and unknown
/// filters exclude the file.
pub open spec fn include_file(
    filter: Seq<char>,
    arch_filter: Seq<char>,
    os_filter: Seq<char>,
    is_posix: bool,
) -> bool {
    if filter.len() == 0 {
        true
    } else if filter == "X86_HOST"@ || filter == "ARM64_HOST"@ || filter == "POWERPC_HOST"@
        || filter == "RISCV64_HOST"@ || filter == "LOONGARCH64_HOST"@ || filter
        == "ZSERIES_HOST"@ {
        filter == arch_filter
    } else if filter == "DARWIN_HOST"@ || filter == "LINUX_HOST"@ || filter == "WINDOWS_HOST"@ {
        filter == os_filter
    } else if filter == "POSIX_HOST"@ {
        is_posix
    } else {
        false
    }
}

/// Whether a file with the given filter should be included in the build.
pub fn should_include_file(filter: &str, arch_filter: &str, os_filter: &str, is_posix: bool) -> (b:
    bool)
    ensures
        b == include_file(filter@, arch_filter@, os_filter@, is_posix),
{
    if filter.is_empty() {
        return true;
    }
    if str_eq(filter, "X86_HOST") || str_eq(filter, "ARM64_HOST") || str_eq(filter, "POWERPC_HOST")
        || str_eq(filter, "RISCV64_HOST") || str_eq(filter, "LOONGARCH64_HOST") || str_eq(
        filter,
        "ZSERIES_HOST",
    ) {
        str_eq(filter, arch_filter)
    } else if str_eq(filter, "DARWIN_HOST") || str_eq(filter, "LINUX_HOST") || str_eq(
        filter,
        "WINDOWS_HOST",
    ) {
        str_eq(filter, os_filter)
    } else if str_eq(filter, "POSIX_HOST") {
        is_posix
    } else {
        false
    }
}

/// A path joined onto a base path, as `Path::join` does on Unix: an
/// absolute `rel` replaces the base, otherwise a separator is added unless
/// the base is empty or already ends in one.
pub open spec fn path_join(base: Seq<char>, rel: Seq<char>) -> Seq<char> {
    if rel.len() > 0 && rel[0] == '/' {
        rel
    } else if base.len() == 0 || base.last() == '/' {
        base + rel
    } else {
        base.push('/') + rel
    }
}

/// `rel` joined onto the path `base`, both given by their characters.
fn join_chars(base: &[char], rel: &[char]) -> (r: String)
    ensures
        r@ == path_join(base@, rel@),
{
    if rel.len() > 0 && rel[0] == '/' {
        return string_of(rel);
    }
    let mut out = string_of(base);
    if base.len() > 0 && base[base.len() - 1] != '/' {
        push_char(&mut out, '/');
    }
    push_chars(&mut out, rel);
    out
}

/// `rel` joined onto the path `base`.
pub fn path_join_str(base: &str, rel: &str) -> (r: String)
    ensures
        r@ == path_join(base@, rel@),
{
    let b = chars_of(base);
    let r = chars_of(rel);
    join_chars(b.as_slice(), r.as_slice())
}

/// The WiredTiger source tree, relative to the crate directory `manifest_dir`.
pub open spec fn wt_root(manifest_dir: Seq<char>) -> Seq<char> {
    path_join(manifest_dir, "../vendor/wiredtiger"@)
}

/// The WiredTiger source tree of the crate in `manifest_dir`
/// (the value of `CARGO_MANIFEST_DIR`).
pub fn wiredtiger_root(manifest_dir: &str) -> (r: String)
    ensures
        r@ == wt_root(manifest_dir@),
{
    path_join_str(manifest_dir, "../vendor/wiredtiger")
}

/// The list of WiredTiger source files.
pub fn filelist_path(manifest_dir: &str) -> (r: String)
    ensures
        r@ == path_join(wt_root(manifest_dir@), "dist/filelist"@),
{
    let root = wiredtiger_root(manifest_dir);
    path_join_str(root.as_str(), "dist/filelist")
}

/// The template of the configuration header.
pub fn config_template_path(manifest_dir: &str) -> (r: String)
    ensures
        r@ == path_join(wt_root(manifest_dir@), "cmake/configs/wiredtiger_config.h.in"@),
{
    let root = wiredtiger_root(manifest_dir);
    path_join_str(root.as_str(), "cmake/configs/wiredtiger_config.h.in")
}

/// The template of `wiredtiger.h`.
pub fn wiredtiger_h_template_path(manifest_dir: &str) -> (r: String)
    ensures
        r@ == path_join(wt_root(manifest_dir@), "src/include/wiredtiger.h.in"@),
{
    let root = wiredtiger_root(manifest_dir);
    path_join_str(root.as_str(), "src/include/wiredtiger.h.in")
}

/// The source file that a line of the source list names for the target,
/// joined onto `wt_root`: blank lines, comments, files other than C files
/// and files whose filter excludes the target name none.
pub open spec fn filelist_entry(
    line: Seq<char>,
    wt_root: Seq<char>,
    arch_filter: Seq<char>,
    os_filter: Seq<char>,
    is_posix: bool,
) -> Option<Seq<char>> {
    let t = trim(line);
    if t.len() == 0 || t[0] == '#' {
        None
    } else {
        let parts = words(t);
        if parts.len() == 0 {
            None
        } else {
            let file = parts[0];
            let filter = if parts.len() > 1 {
                parts[1]
            } else {
                Seq::empty()
            };
            if !ends_with(file, ".c"@) {
                None
            } else if include_file(filter, arch_filter, os_filter, is_posix) {
                Some(path_join(wt_root, file))
            } else {
                None
            }
        }
    }
}

/// The source files that a sequence of source-list lines names, in order.
pub open spec fn filelist_entries(
    ls: Seq<Seq<char>>,
    wt_root: Seq<char>,
    arch_filter: Seq<char>,
    os_filter: Seq<char>,
    is_posix: bool,
) -> Seq<Seq<char>>
    decreases ls.len(),
{
    if ls.len() == 0 {
        seq![]
    } else {
        let rest = filelist_entries(ls.drop_last(), wt_root, arch_filter, os_filter, is_posix);
        match filelist_entry(ls.last(), wt_root, arch_filter, os_filter, is_posix) {
            Some(p) => rest.push(p),
            None => rest,
        }
    }
}

/// `p` is a `.c` file joined onto `wt_root`.
pub open spec fn c_file_under(p: Seq<char>, wt_root: Seq<char>) -> bool {
    exists|f: Seq<char>| #[trigger] path_join(wt_root, f) == p && ends_with(f, ".c"@)
}

/// Only C source files are built: every file that the source list names for
/// a target is a `.c` file joined onto the WiredTiger root.
pub proof fn lemma_filelist_only_c_files(
    ls: Seq<Seq<char>>,
    wt_root: Seq<char>,
    arch_filter: Seq<char>,
    os_filter: Seq<char>,
    is_posix: bool,
)
    ensures
        forall|k: int|
            0 <= k < filelist_entries(ls, wt_root, arch_filter, os_filter, is_posix).len()
                ==> c_file_under(
                #[trigger] filelist_entries(ls, wt_root, arch_filter, os_filter, is_posix)[k],
                wt_root,
            ),
    decreases ls.len(),
{
    if ls.len() > 0 {
        lemma_filelist_only_c_files(ls.drop_last(), wt_root, arch_filter, os_filter, is_posix);
        let rest = filelist_entries(ls.drop_last(), wt_root, arch_filter, os_filter, is_posix);
        let all = filelist_entries(ls, wt_root, arch_filter, os_filter, is_posix);
        assert forall|k: int| 0 <= k < all.len() implies c_file_under(#[trigger] all[k], wt_root) by {
            if k < rest.len() {
                assert(all[k] == rest[k]);
            } else {
                let f = words(trim(ls.last()))[0];
                assert(path_join(wt_root, f) == all[k]);
            }
        }
    }
}

/// The views of a sequence of strings.
pub open spec fn string_views(v: Seq<String>) -> Seq<Seq<char>> {
    v.map_values(|s: String| s@)
}

/// The source file that one line of the source list names for the target.
fn filelist_line(
    line: &[char],
    root: &[char],
    arch_filter: &str,
    os_filter: &str,
    is_posix: bool,
) -> (r: Option<String>)
    ensures
        match r {
            Some(p) => filelist_entry(line@, root@, arch_filter@, os_filter@, is_posix) == Some(p@),
            None => filelist_entry(line@, root@, arch_filter@, os_filter@, is_posix) is None,
        },
{
    let t = trim_chars(line);
    if t.len() == 0 || t[0] == '#' {
        return None;
    }
    let parts = split_whitespace(t.as_slice());
    proof {
        assert(views(parts@).len() == parts@.len());
    }
    if parts.len() == 0 {
        return None;
    }
    let file = &parts[0];
    proof {
        assert(views(parts@)[0] == parts@[0]@);
    }
    let dot_c = chars_of(".c");
    if !chars_end_with(file.as_slice(), dot_c.as_slice()) {
        return None;
    }
    let filter = if parts.len() > 1 {
        proof {
            assert(views(parts@)[1] == parts@[1]@);
        }
        string_of(parts[1].as_slice())
    } else {
        String::new()
    };
    if should_include_file(filter.as_str(), arch_filter, os_filter, is_posix) {
        Some(join_chars(root, file.as_slice()))
    } else {
        None
    }
}

/// The C source files that the source list `content` names for the target,
/// joined onto `wt_root`, in the order of the list.
pub fn parse_filelist(
    content: &str,
    wt_root: &str,
    arch_filter: &str,
    os_filter: &str,
    is_posix: bool,
) -> (files: Vec<String>)
    ensures
        string_views(files@) == filelist_entries(
            lines(content@),
            wt_root@,
            arch_filter@,
            os_filter@,
            is_posix,
        ),
        forall|path: Seq<char>|
            #[trigger] string_views(files@).contains(path) ==> exists|i: int|
                0 <= i < lines(content@).len() && #[trigger] names_file(
                    lines(content@)[i],
                    wt_root@,
                    arch_filter@,
                    os_filter@,
                    is_posix,
                    path,
                ),
        forall|i: int, path: Seq<char>|
            0 <= i < lines(content@).len() && #[trigger] names_file(
                lines(content@)[i],
                wt_root@,
                arch_filter@,
                os_filter@,
                is_posix,
                path,
            ) ==> string_views(files@).contains(path),
{
    proof {
        lemma_filelist_sound(lines(content@), wt_root@, arch_filter@, os_filter@, is_posix);
        lemma_filelist_complete(lines(content@), wt_root@, arch_filter@, os_filter@, is_posix);
    }
    let cs = chars_of(content);
    let root = chars_of(wt_root);
    let ls = split_lines(cs.as_slice());
    let ghost lv = lines(content@);
    let mut files: Vec<String> = Vec::new();
    let mut i: usize = 0;
    while i < ls.len()
        invariant
            i <= ls@.len(),
            views(ls@) == lv,
            root@ == wt_root@,
            string_views(files@) == filelist_entries(
                lv.take(i as int),
                wt_root@,
                arch_filter@,
                os_filter@,
                is_posix,
            ),
        decreases ls@.len() - i,
    {
        let ghost prev = files@;
        proof {
            assert(lv.take(i + 1).drop_last() =~= lv.take(i as int));
            assert(lv.take(i + 1).last() == ls@[i as int]@);
        }
        match filelist_line(ls[i].as_slice(), root.as_slice(), arch_filter, os_filter, is_posix) {
            Some(p) => {
                files.push(p);
                assert(string_views(files@) =~= string_views(prev).push(files@.last()@));
            },
            None => {},
        }
        i = i + 1;
    }
    assert(lv.take(ls@.len() as int) =~= lv);
    files
}

/// The feature table of a target: whether each configuration feature is
/// enabled for the operating system `os` and the architecture `arch`.
pub open spec fn enabled_features(os: Seq<char>, arch: Seq<char>) -> Map<Seq<char>, bool> {
    let is_darwin = os == "macos"@ || os == "ios"@;
    let is_linux = os == "linux"@ || os == "android"@;
    let is_posix = is_darwin || is_linux;
    let is_x86 = arch == "x86"@ || arch == "x86_64"@;
    let is_arm64 = arch == "aarch64"@;
    Map::<Seq<char>, bool>::empty()
        .insert("HAVE_ATTACH"@, false)
        .insert("HAVE_CALL_LOG"@, false)
        .insert("HAVE_DIAGNOSTIC"@, false)
        .insert("HAVE_ERROR_LOG"@, false)
        .insert("HAVE_REF_TRACK"@, false)
        .insert("HAVE_UNITTEST"@, false)
        .insert("CODE_COVERAGE_MEASUREMENT"@, false)
        .insert("INLINE_FUNCTIONS_INSTEAD_OF_MACROS"@, false)
        .insert("HAVE_UNITTEST_ASSERTS"@, false)
        .insert("HAVE_BUILTIN_EXTENSION_LZ4"@, false)
        .insert("HAVE_BUILTIN_EXTENSION_SNAPPY"@, false)
        .insert("HAVE_BUILTIN_EXTENSION_ZLIB"@, false)
        .insert("HAVE_BUILTIN_EXTENSION_ZSTD"@, false)
        .insert("HAVE_BUILTIN_EXTENSION_IAA"@, false)
        .insert("HAVE_BUILTIN_EXTENSION_SODIUM"@, false)
        .insert("HAVE_BUILTIN_EXTENSION_KEY_PROVIDER"@, false)
        .insert("HAVE_FALLOCATE"@, is_linux)
        .insert("HAVE_FDATASYNC"@, is_posix)
        .insert("HAVE_CLOCK_GETTIME"@, is_posix)
        .insert("HAVE_GETTIMEOFDAY"@, is_posix)
        .insert("HAVE_POSIX_FADVISE"@, is_linux)
        .insert("HAVE_POSIX_FALLOCATE"@, is_linux)
        .insert("HAVE_POSIX_MADVISE"@, is_posix)
        .insert("HAVE_POSIX_MEMALIGN"@, is_posix)
        .insert("HAVE_PTHREAD_COND_MONOTONIC"@, is_linux)
        .insert("HAVE_SETRLIMIT"@, is_posix)
        .insert("HAVE_SYNC_FILE_RANGE"@, is_linux)
        .insert("HAVE_TIMER_CREATE"@, is_linux)
        .insert("HAVE_LIBDL"@, is_posix)
        .insert("HAVE_LIBCXX"@, true)
        .insert("HAVE_LIBPTHREAD"@, is_posix)
        .insert("HAVE_LIBRT"@, is_linux)
        .insert("HAVE_LIBACCEL_CONFIG"@, false)
        .insert("HAVE_LIBLZ4"@, false)
        .insert("HAVE_LIBMEMKIND"@, false)
        .insert("ENABLE_MEMKIND"@, false)
        .insert("HAVE_LIBSNAPPY"@, false)
        .insert("ENABLE_ANTITHESIS"@, false)
        .insert("HAVE_LIBZ"@, false)
        .insert("HAVE_LIBZSTD"@, false)
        .insert("HAVE_LIBQPL"@, false)
        .insert("HAVE_LIBSODIUM"@, false)
        .insert("HAVE_X86INTRIN_H"@, is_x86)
        .insert("HAVE_ARM_NEON_INTRIN_H"@, is_arm64)
        .insert("HAVE_RCPC"@, false)
        .insert("HAVE_NO_CRC32_HARDWARE"@, false)
        .insert("WORDS_BIGENDIAN"@, false)
        .insert("WT_STANDALONE_BUILD"@, true)
}

/// The feature table of the target with operating system `os` and
/// architecture `arch` (unset values are the empty string).
pub fn get_enabled_features(os: &str, arch: &str) -> (features: FeatureMap)
    ensures
        features@ == enabled_features(os@, arch@),
{
    let is_darwin = str_eq(os, "macos") || str_eq(os, "ios");
    let is_linux = str_eq(os, "linux") || str_eq(os, "android");
    let is_posix = is_darwin || is_linux;
    let is_x86 = str_eq(arch, "x86") || str_eq(arch, "x86_64");
    let is_arm64 = str_eq(arch, "aarch64");

    let mut features = FeatureMap::new();

    // Debug and diagnostic features, disabled for release builds.
    features.insert("HAVE_ATTACH", false);
    features.insert("HAVE_CALL_LOG", false);
    features.insert("HAVE_DIAGNOSTIC", false);
    features.insert("HAVE_ERROR_LOG", false);
    features.insert("HAVE_REF_TRACK", false);
    features.insert("HAVE_UNITTEST", false);
    features.insert("CODE_COVERAGE_MEASUREMENT", false);
    features.insert("INLINE_FUNCTIONS_INSTEAD_OF_MACROS", false);
    features.insert("HAVE_UNITTEST_ASSERTS", false);

    // Builtin extensions, disabled.
    features.insert("HAVE_BUILTIN_EXTENSION_LZ4", false);
    features.insert("HAVE_BUILTIN_EXTENSION_SNAPPY", false);
    features.insert("HAVE_BUILTIN_EXTENSION_ZLIB", false);
    features.insert("HAVE_BUILTIN_EXTENSION_ZSTD", false);
    features.insert("HAVE_BUILTIN_EXTENSION_IAA", false);
    features.insert("HAVE_BUILTIN_EXTENSION_SODIUM", false);
    features.insert("HAVE_BUILTIN_EXTENSION_KEY_PROVIDER", false);

    // POSIX functions.
    features.insert("HAVE_FALLOCATE", is_linux);
    features.insert("HAVE_FDATASYNC", is_posix);
    features.insert("HAVE_CLOCK_GETTIME", is_posix);
    features.insert("HAVE_GETTIMEOFDAY", is_posix);
    features.insert("HAVE_POSIX_FADVISE", is_linux);
    features.insert("HAVE_POSIX_FALLOCATE", is_linux);
    features.insert("HAVE_POSIX_MADVISE", is_posix);
    features.insert("HAVE_POSIX_MEMALIGN", is_posix);
    features.insert("HAVE_PTHREAD_COND_MONOTONIC", is_linux);
    features.insert("HAVE_SETRLIMIT", is_posix);
    features.insert("HAVE_SYNC_FILE_RANGE", is_linux);
    features.insert("HAVE_TIMER_CREATE", is_linux);

    // Libraries.
    features.insert("HAVE_LIBDL", is_posix);
    features.insert("HAVE_LIBCXX", true);
    features.insert("HAVE_LIBPTHREAD", is_posix);
    features.insert("HAVE_LIBRT", is_linux);
    features.insert("HAVE_LIBACCEL_CONFIG", false);
    features.insert("HAVE_LIBLZ4", false);
    features.insert("HAVE_LIBMEMKIND", false);
    features.insert("ENABLE_MEMKIND", false);
    features.insert("HAVE_LIBSNAPPY", false);
    features.insert("ENABLE_ANTITHESIS", false);
    features.insert("HAVE_LIBZ", false);
    features.insert("HAVE_LIBZSTD", false);
    features.insert("HAVE_LIBQPL", false);
    features.insert("HAVE_LIBSODIUM", false);

    // Hardware and architecture specific.
    features.insert("HAVE_X86INTRIN_H", is_x86);
    features.insert("HAVE_ARM_NEON_INTRIN_H", is_arm64);
    features.insert("HAVE_RCPC", false);
    features.insert("HAVE_NO_CRC32_HARDWARE", false);
    features.insert("WORDS_BIGENDIAN", false);

    // Standalone build.
    features.insert("WT_STANDALONE_BUILD", true);
    features
}

/// Major version of the WiredTiger release that is built.
pub const VERSION_MAJOR: &'static str = "12";

/// Minor version of the WiredTiger release that is built.
pub const VERSION_MINOR: &'static str = "0";

/// Patch version of the WiredTiger release that is built.
pub const VERSION_PATCH: &'static str = "0";

/// Version string of the build, quoted for C.
pub const VERSION_STRING: &'static str = "\"WiredTiger 12.0.0 (Rust build)\"";

/// Lines joined with line feeds between them.
pub open spec fn join_lines(ls: Seq<Seq<char>>) -> Seq<char>
    decreases ls.len(),
{
    if ls.len() == 0 {
        seq![]
    } else if ls.len() == 1 {
        ls[0]
    } else {
        join_lines(ls.drop_last()).push('\n') + ls.last()
    }
}

/// What a line of the configuration template becomes: `#cmakedefine` lines
/// are processed against the feature table (trimmed), other lines have their
/// version and spinlock placeholders filled in.
pub open spec fn config_line(line: Seq<char>, features: Map<Seq<char>, bool>, spinlock: Seq<char>) -> Seq<
    char,
> {
    let t = trim(line);
    if starts_with(t, "#cmakedefine"@) {
        cmakedefine_output(t, features)
    } else {
        replace(
            replace(
                replace(
                    replace(line, "@VERSION_MAJOR@"@, VERSION_MAJOR@),
                    "@VERSION_MINOR@"@,
                    VERSION_MINOR@,
                ),
                "@VERSION_PATCH@"@,
                VERSION_PATCH@,
            ),
            "@SPINLOCK_TYPE_CONFIG_VAR@"@,
            spinlock,
        )
    }
}

/// The configuration header generated from a template.
pub open spec fn config_text(
    template: Seq<char>,
    features: Map<Seq<char>, bool>,
    spinlock: Seq<char>,
) -> Seq<char> {
    join_lines(lines(template).map_values(|l: Seq<char>| config_line(l, features, spinlock)))
}

/// `s` with `from` replaced by `to`, for a pattern given as a string literal.
fn replace_str(s: &[char], from: &str, to: &str) -> (r: Vec<char>)
    requires
        from@.len() > 0,
    ensures
        r@ == replace(s@, from@, to@),
{
    let f = chars_of(from);
    let t = chars_of(to);
    replace_chars(s, f.as_slice(), t.as_slice())
}

/// One line of the configuration header, from its template line.
fn render_config_line(line: &[char], features: &FeatureMap, spinlock: &str) -> (r: Vec<char>)
    ensures
        r@ == config_line(line@, features@, spinlock@),
{
    let t = trim_chars(line);
    let marker = chars_of("#cmakedefine");
    if chars_start_with(t.as_slice(), marker.as_slice()) {
        let ts = string_of(t.as_slice());
        let out = process_cmakedefine(ts.as_str(), features);
        chars_of(out.as_str())
    } else {
        proof {
            broadcast use vstd::string::group_string_axioms;

            reveal_strlit("@VERSION_MAJOR@");
            reveal_strlit("@VERSION_MINOR@");
            reveal_strlit("@VERSION_PATCH@");
            reveal_strlit("@SPINLOCK_TYPE_CONFIG_VAR@");
        }
        let a = replace_str(line, "@VERSION_MAJOR@", VERSION_MAJOR);
        let b = replace_str(a.as_slice(), "@VERSION_MINOR@", VERSION_MINOR);
        let c = replace_str(b.as_slice(), "@VERSION_PATCH@", VERSION_PATCH);
        replace_str(c.as_slice(), "@SPINLOCK_TYPE_CONFIG_VAR@", spinlock)
    }
}

/// The configuration header generated from the template text `template`:
/// the template's lines, each processed by `config_line`, joined with line
/// feeds.
pub fn generate_config(template: &str, features: &FeatureMap, spinlock_type: &str) -> (out:
    String)
    ensures
        out@ == config_text(template@, features@, spinlock_type@),
{
    let cs = chars_of(template);
    let ls = split_lines(cs.as_slice());
    let ghost ml = lines(template@).map_values(
        |l: Seq<char>| config_line(l, features@, spinlock_type@),
    );
    let mut out = String::new();
    let mut i: usize = 0;
    while i < ls.len()
        invariant
            i <= ls@.len(),
            views(ls@) == lines(template@),
            ml == lines(template@).map_values(
                |l: Seq<char>| config_line(l, features@, spinlock_type@),
            ),
            out@ == join_lines(ml.take(i as int)),
        decreases ls@.len() - i,
    {
        let ghost before = out@;
        if i > 0 {
            push_char(&mut out, '\n');
        }
        let l = render_config_line(ls[i].as_slice(), features, spinlock_type);
        push_chars(&mut out, l.as_slice());
        proof {
            assert(ml[i as int] == l@);
            let t = ml.take(i + 1);
            assert(t.drop_last() =~= ml.take(i as int));
            if i == 0 {
                assert(out@ =~= t[0]);
            } else {
                assert(out@ =~= join_lines(t.drop_last()).push('\n') + t.last());
            }
        }
        i = i + 1;
    }
    assert(ml.take(ls@.len() as int) =~= ml);
    out
}

/// The header `wiredtiger.h` generated from its template: the version
/// placeholders filled in and the `SWIG`/`DOXYGEN` guard turned into a
/// `BINDGEN_FILTER` guard.
pub open spec fn wiredtiger_h_text(template: Seq<char>) -> Seq<char> {
    replace(
        replace(
            replace(
                replace(
                    replace(template, "@VERSION_MAJOR@"@, VERSION_MAJOR@),
                    "@VERSION_MINOR@"@,
                    VERSION_MINOR@,
                ),
                "@VERSION_PATCH@"@,
                VERSION_PATCH@,
            ),
            "@VERSION_STRING@"@,
            VERSION_STRING@,
        ),
        "#if !defined(SWIG) && !defined(DOXYGEN)"@,
        "#if !defined(BINDGEN_FILTER)"@,
    )
}

/// The header `wiredtiger.h` generated from the template text `template`.
pub fn generate_wiredtiger_h(template: &str) -> (out: String)
    ensures
        out@ == wiredtiger_h_text(template@),
        !occurs(out@, "@VERSION_MAJOR@"@),
        !occurs(out@, "@VERSION_MINOR@"@),
        !occurs(out@, "@VERSION_PATCH@"@),
        !occurs(out@, "@VERSION_STRING@"@),
{
    proof {
        lemma_wiredtiger_h_no_placeholder_left(template@);
    }
    proof {
        broadcast use vstd::string::group_string_axioms;

        reveal_strlit("@VERSION_MAJOR@");
        reveal_strlit("@VERSION_MINOR@");
        reveal_strlit("@VERSION_PATCH@");
        reveal_strlit("@VERSION_STRING@");
        reveal_strlit("#if !defined(SWIG) && !defined(DOXYGEN)");
    }
    let cs = chars_of(template);
    let a = replace_str(cs.as_slice(), "@VERSION_MAJOR@", VERSION_MAJOR);
    let b = replace_str(a.as_slice(), "@VERSION_MINOR@", VERSION_MINOR);
    let c = replace_str(b.as_slice(), "@VERSION_PATCH@", VERSION_PATCH);
    let d = replace_str(c.as_slice(), "@VERSION_STRING@", VERSION_STRING);
    let e = replace_str(
        d.as_slice(),
        "#if !defined(SWIG) && !defined(DOXYGEN)",
        "#if !defined(BINDGEN_FILTER)",
    );
    string_of(e.as_slice())
}

/// On every target, a template line `#cmakedefine HAVE_RCPC ...` leaves
/// `HAVE_RCPC` undefined, so that `defined(HAVE_RCPC)` is false and no
/// ARM-specific code is selected by it.
pub proof fn lemma_rcpc_never_defined(line: Seq<char>, os: Seq<char>, arch: Seq<char>)
    requires
        words(line).len() >= 2,
        words(line)[1] == "HAVE_RCPC"@,
    ensures
        cmakedefine_output(line, enabled_features(os, arch)) == "/* #undef HAVE_RCPC */"@,
{
    broadcast use vstd::string::group_string_axioms;

    reveal_strlit("HAVE_RCPC");
    reveal_strlit("HAVE_NO_CRC32_HARDWARE");
    reveal_strlit("WORDS_BIGENDIAN");
    reveal_strlit("WT_STANDALONE_BUILD");
    reveal_strlit("/* #undef ");
    reveal_strlit(" */");
    reveal_strlit("/* #undef HAVE_RCPC */");
    assert("HAVE_RCPC"@.len() == 9);
    assert("HAVE_NO_CRC32_HARDWARE"@.len() == 22);
    assert("WORDS_BIGENDIAN"@.len() == 15);
    assert("WT_STANDALONE_BUILD"@.len() == 19);
    let m = enabled_features(os, arch);
    assert(m.contains_key("HAVE_RCPC"@) && !m["HAVE_RCPC"@]);
    assert("/* #undef "@ + "HAVE_RCPC"@ + " */"@ =~= "/* #undef HAVE_RCPC */"@);
}

/// A template line that is not a `#cmakedefine` line and holds no
/// placeholder is copied into the configuration header unchanged.
pub proof fn lemma_config_line_without_placeholders(
    line: Seq<char>,
    features: Map<Seq<char>, bool>,
    spinlock: Seq<char>,
)
    requires
        !starts_with(trim(line), "#cmakedefine"@),
        !occurs(line, "@VERSION_MAJOR@"@),
        !occurs(line, "@VERSION_MINOR@"@),
        !occurs(line, "@VERSION_PATCH@"@),
        !occurs(line, "@SPINLOCK_TYPE_CONFIG_VAR@"@),
    ensures
        config_line(line, features, spinlock) == line,
{
    broadcast use vstd::string::group_string_axioms;

    reveal_strlit("@VERSION_MAJOR@");
    reveal_strlit("@VERSION_MINOR@");
    reveal_strlit("@VERSION_PATCH@");
    reveal_strlit("@SPINLOCK_TYPE_CONFIG_VAR@");
    lemma_replace_absent(line, "@VERSION_MAJOR@"@, VERSION_MAJOR@);
    lemma_replace_absent(line, "@VERSION_MINOR@"@, VERSION_MINOR@);
    lemma_replace_absent(line, "@VERSION_PATCH@"@, VERSION_PATCH@);
    lemma_replace_absent(line, "@SPINLOCK_TYPE_CONFIG_VAR@"@, spinlock);
}

/// A template of `wiredtiger.h` that holds no placeholder and no
/// `SWIG`/`DOXYGEN` guard is copied unchanged.
pub proof fn lemma_wiredtiger_h_without_placeholders(template: Seq<char>)
    requires
        !occurs(template, "@VERSION_MAJOR@"@),
        !occurs(template, "@VERSION_MINOR@"@),
        !occurs(template, "@VERSION_PATCH@"@),
        !occurs(template, "@VERSION_STRING@"@),
        !occurs(template, "#if !defined(SWIG) && !defined(DOXYGEN)"@),
    ensures
        wiredtiger_h_text(template) == template,
{
    broadcast use vstd::string::group_string_axioms;

    reveal_strlit("@VERSION_MAJOR@");
    reveal_strlit("@VERSION_MINOR@");
    reveal_strlit("@VERSION_PATCH@");
    reveal_strlit("@VERSION_STRING@");
    reveal_strlit("#if !defined(SWIG) && !defined(DOXYGEN)");
    lemma_replace_absent(template, "@VERSION_MAJOR@"@, VERSION_MAJOR@);
    lemma_replace_absent(template, "@VERSION_MINOR@"@, VERSION_MINOR@);
    lemma_replace_absent(template, "@VERSION_PATCH@"@, VERSION_PATCH@);
    lemma_replace_absent(template, "@VERSION_STRING@"@, VERSION_STRING@);
    lemma_replace_absent(
        template,
        "#if !defined(SWIG) && !defined(DOXYGEN)"@,
        "#if !defined(BINDGEN_FILTER)"@,
    );
}

} // verus!
