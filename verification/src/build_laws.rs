//! Laws of the build configuration: what the platform filters, the
//! feature table, the source list and the header generation give, stated by
//! the names and texts involved.

use vstd::prelude::*;

use crate::build_config::{
    cmakedefine_output,
    config_line, config_text, join_lines, wiredtiger_h_text, VERSION_MAJOR, VERSION_MINOR, VERSION_PATCH, VERSION_STRING,
    filelist_entries, filelist_entry, path_join, wt_root,
    enabled_features, include_file, known_filter, os_filter, arch_filter, posix_os, spinlock_type,
};
use crate::text::{
    ends_with, lemma_absent_char, lemma_absent_longer, lemma_contains_concat, lemma_replace_around,
    lemma_replace_keeps_absent, lemma_replace_prefix, lemma_replace_without_first_char,
    lemma_lines_split, lemma_trim_chars_of, lemma_words_split, is_ws, lines, occurs, replace, starts_with, strip_cr, trim,
    words,
};

verus! {

/// The WiredTiger tree lies at `../vendor/wiredtiger` under the crate
/// directory, and the source list and both templates lie under it, each
/// path separated from the next by one `/`.
pub proof fn lemma_build_paths(manifest_dir: Seq<char>)
    ensures
        manifest_dir.len() > 0 && manifest_dir.last() != '/' ==> wt_root(manifest_dir) == manifest_dir + "/../vendor/wiredtiger"@,
        manifest_dir.len() > 0 && manifest_dir.last() != '/' ==> path_join(wt_root(manifest_dir), "dist/filelist"@) == manifest_dir + "/../vendor/wiredtiger/dist/filelist"@,
        manifest_dir.len() > 0 && manifest_dir.last() != '/' ==> path_join(wt_root(manifest_dir), "cmake/configs/wiredtiger_config.h.in"@) == manifest_dir + "/../vendor/wiredtiger/cmake/configs/wiredtiger_config.h.in"@,
        manifest_dir.len() > 0 && manifest_dir.last() != '/' ==> path_join(wt_root(manifest_dir), "src/include/wiredtiger.h.in"@) == manifest_dir + "/../vendor/wiredtiger/src/include/wiredtiger.h.in"@,
        manifest_dir.len() == 0 || manifest_dir.last() == '/' ==> wt_root(manifest_dir) == manifest_dir + "../vendor/wiredtiger"@,
        manifest_dir.len() == 0 || manifest_dir.last() == '/' ==> path_join(wt_root(manifest_dir), "dist/filelist"@) == manifest_dir + "../vendor/wiredtiger/dist/filelist"@,
        manifest_dir.len() == 0 || manifest_dir.last() == '/' ==> path_join(wt_root(manifest_dir), "cmake/configs/wiredtiger_config.h.in"@) == manifest_dir + "../vendor/wiredtiger/cmake/configs/wiredtiger_config.h.in"@,
        manifest_dir.len() == 0 || manifest_dir.last() == '/' ==> path_join(wt_root(manifest_dir), "src/include/wiredtiger.h.in"@) == manifest_dir + "../vendor/wiredtiger/src/include/wiredtiger.h.in"@,
{
    broadcast use vstd::string::group_string_axioms;
    reveal_strlit("../vendor/wiredtiger");
    reveal_strlit("dist/filelist");
    reveal_strlit("cmake/configs/wiredtiger_config.h.in");
    reveal_strlit("src/include/wiredtiger.h.in");
    reveal_strlit("/../vendor/wiredtiger");
    reveal_strlit("/../vendor/wiredtiger/dist/filelist");
    reveal_strlit("/../vendor/wiredtiger/cmake/configs/wiredtiger_config.h.in");
    reveal_strlit("/../vendor/wiredtiger/src/include/wiredtiger.h.in");
    reveal_strlit("../vendor/wiredtiger/dist/filelist");
    reveal_strlit("../vendor/wiredtiger/cmake/configs/wiredtiger_config.h.in");
    reveal_strlit("../vendor/wiredtiger/src/include/wiredtiger.h.in");
    assert("../vendor/wiredtiger"@.len() == 20);
    assert("dist/filelist"@.len() == 13);
    assert("cmake/configs/wiredtiger_config.h.in"@.len() == 36);
    assert("src/include/wiredtiger.h.in"@.len() == 27);
    assert("/../vendor/wiredtiger"@.len() == 21);
    assert("/../vendor/wiredtiger/dist/filelist"@.len() == 35);
    assert("/../vendor/wiredtiger/cmake/configs/wiredtiger_config.h.in"@.len() == 58);
    assert("/../vendor/wiredtiger/src/include/wiredtiger.h.in"@.len() == 49);
    assert("../vendor/wiredtiger/dist/filelist"@.len() == 34);
    assert("../vendor/wiredtiger/cmake/configs/wiredtiger_config.h.in"@.len() == 57);
    assert("../vendor/wiredtiger/src/include/wiredtiger.h.in"@.len() == 48);
    let w = wt_root(manifest_dir);
    let sep: Seq<char> = if manifest_dir.len() > 0 && manifest_dir.last() != '/' { seq!['/'] } else { Seq::empty() };
    assert(w =~= manifest_dir + sep + "../vendor/wiredtiger"@);
    assert(w.last() == 'r');
    assert(path_join(w, "dist/filelist"@) =~= manifest_dir + sep + "../vendor/wiredtiger/dist/filelist"@);
    assert(path_join(w, "cmake/configs/wiredtiger_config.h.in"@) =~= manifest_dir + sep + "../vendor/wiredtiger/cmake/configs/wiredtiger_config.h.in"@);
    assert(path_join(w, "src/include/wiredtiger.h.in"@) =~= manifest_dir + sep + "../vendor/wiredtiger/src/include/wiredtiger.h.in"@);
    if sep.len() > 0 {
        assert(manifest_dir + sep + "../vendor/wiredtiger"@ =~= manifest_dir + "/../vendor/wiredtiger"@);
        assert(manifest_dir + sep + "../vendor/wiredtiger/dist/filelist"@ =~= manifest_dir + "/../vendor/wiredtiger/dist/filelist"@);
        assert(manifest_dir + sep + "../vendor/wiredtiger/cmake/configs/wiredtiger_config.h.in"@ =~= manifest_dir + "/../vendor/wiredtiger/cmake/configs/wiredtiger_config.h.in"@);
        assert(manifest_dir + sep + "../vendor/wiredtiger/src/include/wiredtiger.h.in"@ =~= manifest_dir + "/../vendor/wiredtiger/src/include/wiredtiger.h.in"@);
    } else {
        assert(manifest_dir + sep + "../vendor/wiredtiger"@ =~= manifest_dir + "../vendor/wiredtiger"@);
        assert(manifest_dir + sep + "../vendor/wiredtiger/dist/filelist"@ =~= manifest_dir + "../vendor/wiredtiger/dist/filelist"@);
        assert(manifest_dir + sep + "../vendor/wiredtiger/cmake/configs/wiredtiger_config.h.in"@ =~= manifest_dir + "../vendor/wiredtiger/cmake/configs/wiredtiger_config.h.in"@);
        assert(manifest_dir + sep + "../vendor/wiredtiger/src/include/wiredtiger.h.in"@ =~= manifest_dir + "../vendor/wiredtiger/src/include/wiredtiger.h.in"@);
    }
}

/// Joining a first line onto further lines puts one line feed between it
/// and the joined rest.
proof fn lemma_join_lines_first(x: Seq<char>, ls: Seq<Seq<char>>)
    requires
        ls.len() > 0,
    ensures
        join_lines(seq![x] + ls) == x.push('\n') + join_lines(ls),
    decreases ls.len(),
{
    let all = seq![x] + ls;
    assert(all.last() == ls.last());
    if ls.len() == 1 {
        assert(all.drop_last() =~= seq![x]);
        assert(join_lines(seq![x]) == x);
        assert(join_lines(ls) == ls[0]);
        assert(join_lines(all) == join_lines(all.drop_last()).push('\n') + all.last());
    } else {
        assert(all.drop_last() =~= seq![x] + ls.drop_last());
        lemma_join_lines_first(x, ls.drop_last());
        assert(join_lines(all) =~= x.push('\n') + join_lines(ls));
    }
}

/// The configuration header is made line by line: a template without a line
/// feed gives its one processed line, and a first template line gives its
/// processed line, then one line feed and the header of the rest (nothing
/// more where the rest is empty).
pub proof fn lemma_config_text_lines(
    a: Seq<char>,
    b: Seq<char>,
    features: Map<Seq<char>, bool>,
    spinlock: Seq<char>,
)
    requires
        !a.contains('\n'),
    ensures
        a.len() > 0 ==> config_text(a, features, spinlock) == config_line(a, features, spinlock),
        b.len() == 0 ==> config_text(a.push('\n'), features, spinlock) == config_line(
            strip_cr(a),
            features,
            spinlock,
        ),
        b.len() > 0 ==> config_text(a.push('\n') + b, features, spinlock) == config_line(
            strip_cr(a),
            features,
            spinlock,
        ).push('\n') + config_text(b, features, spinlock),
{
    let f = |l: Seq<char>| config_line(l, features, spinlock);
    lemma_lines_split(a, b);
    if a.len() > 0 {
        assert(lines(a).map_values(f) =~= seq![f(a)]);
    }
    let first = seq![strip_cr(a)];
    let rest = lines(b);
    assert((first + rest).map_values(f) =~= seq![f(strip_cr(a))] + rest.map_values(f));
    if b.len() == 0 {
        assert(a.push('\n') + b =~= a.push('\n'));
        assert(rest.len() == 0);
        assert((first + rest).map_values(f) =~= seq![f(strip_cr(a))]);
    } else {
        assert(rest.len() > 0);
        lemma_join_lines_first(f(strip_cr(a)), rest.map_values(f));
    }
}

/// The feature table names these features and no other, whatever the target.
pub proof fn lemma_feature_names(os: Seq<char>, arch: Seq<char>)
    ensures
        forall|k: Seq<char>|
            #[trigger] enabled_features(os, arch).contains_key(k) <==> (
                k == "HAVE_ATTACH"@ ||
                k == "HAVE_CALL_LOG"@ ||
                k == "HAVE_DIAGNOSTIC"@ ||
                k == "HAVE_ERROR_LOG"@ ||
                k == "HAVE_REF_TRACK"@ ||
                k == "HAVE_UNITTEST"@ ||
                k == "CODE_COVERAGE_MEASUREMENT"@ ||
                k == "INLINE_FUNCTIONS_INSTEAD_OF_MACROS"@ ||
                k == "HAVE_UNITTEST_ASSERTS"@ ||
                k == "HAVE_BUILTIN_EXTENSION_LZ4"@ ||
                k == "HAVE_BUILTIN_EXTENSION_SNAPPY"@ ||
                k == "HAVE_BUILTIN_EXTENSION_ZLIB"@ ||
                k == "HAVE_BUILTIN_EXTENSION_ZSTD"@ ||
                k == "HAVE_BUILTIN_EXTENSION_IAA"@ ||
                k == "HAVE_BUILTIN_EXTENSION_SODIUM"@ ||
                k == "HAVE_BUILTIN_EXTENSION_KEY_PROVIDER"@ ||
                k == "HAVE_FALLOCATE"@ ||
                k == "HAVE_FDATASYNC"@ ||
                k == "HAVE_CLOCK_GETTIME"@ ||
                k == "HAVE_GETTIMEOFDAY"@ ||
                k == "HAVE_POSIX_FADVISE"@ ||
                k == "HAVE_POSIX_FALLOCATE"@ ||
                k == "HAVE_POSIX_MADVISE"@ ||
                k == "HAVE_POSIX_MEMALIGN"@ ||
                k == "HAVE_PTHREAD_COND_MONOTONIC"@ ||
                k == "HAVE_SETRLIMIT"@ ||
                k == "HAVE_SYNC_FILE_RANGE"@ ||
                k == "HAVE_TIMER_CREATE"@ ||
                k == "HAVE_LIBDL"@ ||
                k == "HAVE_LIBCXX"@ ||
                k == "HAVE_LIBPTHREAD"@ ||
                k == "HAVE_LIBRT"@ ||
                k == "HAVE_LIBACCEL_CONFIG"@ ||
                k == "HAVE_LIBLZ4"@ ||
                k == "HAVE_LIBMEMKIND"@ ||
                k == "ENABLE_MEMKIND"@ ||
                k == "HAVE_LIBSNAPPY"@ ||
                k == "ENABLE_ANTITHESIS"@ ||
                k == "HAVE_LIBZ"@ ||
                k == "HAVE_LIBZSTD"@ ||
                k == "HAVE_LIBQPL"@ ||
                k == "HAVE_LIBSODIUM"@ ||
                k == "HAVE_X86INTRIN_H"@ ||
                k == "HAVE_ARM_NEON_INTRIN_H"@ ||
                k == "HAVE_RCPC"@ ||
                k == "HAVE_NO_CRC32_HARDWARE"@ ||
                k == "WORDS_BIGENDIAN"@ ||
                k == "WT_STANDALONE_BUILD"@
            ),
{
}

/// A source file whose filter is the target's own architecture filter or
/// operating-system filter is always built for that target, a `POSIX_HOST`
/// file exactly on a POSIX target, and a file filtered for another
/// architecture or operating system never.
pub proof fn lemma_target_files_included(
    arch: Seq<char>,
    os: Seq<char>,
    filter: Seq<char>,
)
    ensures
        arch_filter(arch).len() > 0 ==> include_file(
            arch_filter(arch),
            arch_filter(arch),
            os_filter(os),
            posix_os(os),
        ),
        os_filter(os).len() > 0 ==> include_file(
            os_filter(os),
            arch_filter(arch),
            os_filter(os),
            posix_os(os),
        ),
        include_file("POSIX_HOST"@, arch_filter(arch), os_filter(os), posix_os(os)) == posix_os(os),
        (filter == "X86_HOST"@ || filter == "ARM64_HOST"@ || filter == "POWERPC_HOST"@ || filter
            == "RISCV64_HOST"@ || filter == "LOONGARCH64_HOST"@ || filter == "ZSERIES_HOST"@)
            && filter != arch_filter(arch) ==> !include_file(
            filter,
            arch_filter(arch),
            os_filter(os),
            posix_os(os),
        ),
        (filter == "DARWIN_HOST"@ || filter == "LINUX_HOST"@ || filter == "WINDOWS_HOST"@)
            && filter != os_filter(os) ==> !include_file(
            filter,
            arch_filter(arch),
            os_filter(os),
            posix_os(os),
        ),
{
    lemma_arch_filter_names(arch);
    lemma_os_filter_names(os);
    lemma_include_file_rules(arch_filter(arch), arch_filter(arch), os_filter(os), posix_os(os));
    lemma_include_file_rules(os_filter(os), arch_filter(arch), os_filter(os), posix_os(os));
    lemma_include_file_rules("POSIX_HOST"@, arch_filter(arch), os_filter(os), posix_os(os));
    lemma_include_file_rules(filter, arch_filter(arch), os_filter(os), posix_os(os));
}

/// The operating-system filter is `LINUX_HOST` exactly for linux and android,
/// `DARWIN_HOST` exactly for macos and ios, `WINDOWS_HOST` exactly for
/// windows, and empty for every other operating system.
pub proof fn lemma_os_filter_names(os: Seq<char>)
    ensures
        (os_filter(os) == "LINUX_HOST"@) == (os == "linux"@ || os == "android"@),
        (os_filter(os) == "DARWIN_HOST"@) == (os == "macos"@ || os == "ios"@),
        (os_filter(os) == "WINDOWS_HOST"@) == (os == "windows"@),
        (os_filter(os) == Seq::<char>::empty()) == !(os == "macos"@ || os == "ios"@ || os == "linux"@ || os == "android"@ || os == "windows"@),
{
    broadcast use vstd::string::group_string_axioms;

    reveal_strlit("macos");
    reveal_strlit("ios");
    reveal_strlit("linux");
    reveal_strlit("android");
    reveal_strlit("windows");
    reveal_strlit("LINUX_HOST");
    reveal_strlit("DARWIN_HOST");
    reveal_strlit("WINDOWS_HOST");
    reveal_strlit("");
    assert("macos"@.len() == 5);
    assert("ios"@.len() == 3);
    assert("linux"@.len() == 5);
    assert("android"@.len() == 7);
    assert("windows"@.len() == 7);
    assert("LINUX_HOST"@.len() == 10);
    assert("DARWIN_HOST"@.len() == 11);
    assert("WINDOWS_HOST"@.len() == 12);
    assert(""@.len() == 0);
    assert(""@ =~= Seq::<char>::empty());
    assert("macos"@[0] != "linux"@[0]);
    assert("android"@[0] != "windows"@[0]);
}

/// The architecture filter names the architecture family: `X86_HOST` exactly
/// for x86 and x86_64, `ARM64_HOST` for aarch64, `POWERPC_HOST` for powerpc and
/// powerpc64, `RISCV64_HOST` for riscv64, `LOONGARCH64_HOST` for loongarch64,
/// `ZSERIES_HOST` for s390x, and it is empty for every other architecture.
pub proof fn lemma_arch_filter_names(arch: Seq<char>)
    ensures
        (arch_filter(arch) == "X86_HOST"@) == (arch == "x86"@ || arch == "x86_64"@),
        (arch_filter(arch) == "ARM64_HOST"@) == (arch == "aarch64"@),
        (arch_filter(arch) == "POWERPC_HOST"@) == (arch == "powerpc"@ || arch == "powerpc64"@),
        (arch_filter(arch) == "RISCV64_HOST"@) == (arch == "riscv64"@),
        (arch_filter(arch) == "LOONGARCH64_HOST"@) == (arch == "loongarch64"@),
        (arch_filter(arch) == "ZSERIES_HOST"@) == (arch == "s390x"@),
        (arch_filter(arch) == Seq::<char>::empty()) == !(arch == "x86"@ || arch == "x86_64"@ || arch == "aarch64"@ || arch == "powerpc"@ || arch == "powerpc64"@ || arch == "riscv64"@ || arch == "loongarch64"@ || arch == "s390x"@),
{
    broadcast use vstd::string::group_string_axioms;

    reveal_strlit("x86");
    reveal_strlit("x86_64");
    reveal_strlit("aarch64");
    reveal_strlit("powerpc");
    reveal_strlit("powerpc64");
    reveal_strlit("riscv64");
    reveal_strlit("loongarch64");
    reveal_strlit("s390x");
    reveal_strlit("X86_HOST");
    reveal_strlit("ARM64_HOST");
    reveal_strlit("POWERPC_HOST");
    reveal_strlit("RISCV64_HOST");
    reveal_strlit("LOONGARCH64_HOST");
    reveal_strlit("ZSERIES_HOST");
    reveal_strlit("");
    assert("x86"@.len() == 3);
    assert("x86_64"@.len() == 6);
    assert("aarch64"@.len() == 7);
    assert("powerpc"@.len() == 7);
    assert("powerpc64"@.len() == 9);
    assert("riscv64"@.len() == 7);
    assert("loongarch64"@.len() == 11);
    assert("s390x"@.len() == 5);
    assert("X86_HOST"@.len() == 8);
    assert("ARM64_HOST"@.len() == 10);
    assert("POWERPC_HOST"@.len() == 12);
    assert("RISCV64_HOST"@.len() == 12);
    assert("LOONGARCH64_HOST"@.len() == 16);
    assert("ZSERIES_HOST"@.len() == 12);
    assert(""@.len() == 0);
    assert(""@ =~= Seq::<char>::empty());
    assert("aarch64"@[0] != "powerpc"@[0]);
    assert("aarch64"@[0] != "riscv64"@[0]);
    assert("powerpc"@[0] != "riscv64"@[0]);
    assert("POWERPC_HOST"@[0] != "RISCV64_HOST"@[0]);
    assert("POWERPC_HOST"@[0] != "ZSERIES_HOST"@[0]);
    assert("RISCV64_HOST"@[0] != "ZSERIES_HOST"@[0]);
}

/// The POSIX-compatible operating systems are macos, ios, linux, android,
/// freebsd, openbsd, netbsd and dragonfly.
pub proof fn lemma_posix_names(os: Seq<char>)
    ensures
        posix_os(os) == (os == "macos"@ || os == "ios"@ || os == "linux"@ || os == "android"@ || os == "freebsd"@ || os == "openbsd"@ || os == "netbsd"@ || os == "dragonfly"@),
{
}

/// The spinlock is the MSVC one exactly on windows and the pthread mutex on
/// every other operating system.
pub proof fn lemma_spinlock_names(os: Seq<char>)
    ensures
        (spinlock_type(os) == "SPINLOCK_MSVC"@) == (os == "windows"@),
        (spinlock_type(os) == "SPINLOCK_PTHREAD_MUTEX"@) == (os != "windows"@),
{
    broadcast use vstd::string::group_string_axioms;

    reveal_strlit("macos");
    reveal_strlit("ios");
    reveal_strlit("linux");
    reveal_strlit("android");
    reveal_strlit("windows");
    reveal_strlit("SPINLOCK_MSVC");
    reveal_strlit("SPINLOCK_PTHREAD_MUTEX");
    assert("macos"@.len() == 5);
    assert("ios"@.len() == 3);
    assert("linux"@.len() == 5);
    assert("android"@.len() == 7);
    assert("windows"@.len() == 7);
    assert("SPINLOCK_MSVC"@.len() == 13);
    assert("SPINLOCK_PTHREAD_MUTEX"@.len() == 22);
    assert("macos"@[0] != "linux"@[0]);
    assert("android"@[0] != "windows"@[0]);
}

/// Which files a platform filter admits: a file without a filter is always
/// built; an architecture filter admits the file exactly when it is the
/// target's architecture filter, an operating-system filter exactly when it
/// is the target's operating-system filter, `POSIX_HOST` exactly on POSIX
/// targets; any other filter excludes the file.
pub proof fn lemma_include_file_rules(
    filter: Seq<char>,
    arch_filter: Seq<char>,
    os_filter: Seq<char>,
    is_posix: bool,
)
    ensures
        filter.len() == 0 ==> include_file(filter, arch_filter, os_filter, is_posix),
        (filter == "X86_HOST"@ || filter == "ARM64_HOST"@ || filter == "POWERPC_HOST"@ || filter == "RISCV64_HOST"@ || filter == "LOONGARCH64_HOST"@ || filter == "ZSERIES_HOST"@) ==> (include_file(filter, arch_filter, os_filter, is_posix) == (filter == arch_filter)),
        (filter == "DARWIN_HOST"@ || filter == "LINUX_HOST"@ || filter == "WINDOWS_HOST"@) ==> (include_file(filter, arch_filter, os_filter, is_posix) == (filter == os_filter)),
        filter == "POSIX_HOST"@ ==> (include_file(filter, arch_filter, os_filter, is_posix) == is_posix),
        !(filter.len() == 0 || (filter == "X86_HOST"@ || filter == "ARM64_HOST"@ || filter == "POWERPC_HOST"@ || filter == "RISCV64_HOST"@ || filter == "LOONGARCH64_HOST"@ || filter == "ZSERIES_HOST"@ || filter == "DARWIN_HOST"@ || filter == "LINUX_HOST"@ || filter == "WINDOWS_HOST"@ || filter == "POSIX_HOST"@)) ==> !include_file(filter, arch_filter, os_filter, is_posix),
        known_filter(filter) == (filter.len() == 0 || (filter == "X86_HOST"@ || filter == "ARM64_HOST"@ || filter == "POWERPC_HOST"@ || filter == "RISCV64_HOST"@ || filter == "LOONGARCH64_HOST"@ || filter == "ZSERIES_HOST"@ || filter == "DARWIN_HOST"@ || filter == "LINUX_HOST"@ || filter == "WINDOWS_HOST"@ || filter == "POSIX_HOST"@)),
{
    broadcast use vstd::string::group_string_axioms;

    reveal_strlit("X86_HOST");
    reveal_strlit("ARM64_HOST");
    reveal_strlit("POWERPC_HOST");
    reveal_strlit("RISCV64_HOST");
    reveal_strlit("LOONGARCH64_HOST");
    reveal_strlit("ZSERIES_HOST");
    reveal_strlit("DARWIN_HOST");
    reveal_strlit("LINUX_HOST");
    reveal_strlit("WINDOWS_HOST");
    reveal_strlit("POSIX_HOST");
    assert("X86_HOST"@.len() == 8);
    assert("ARM64_HOST"@.len() == 10);
    assert("POWERPC_HOST"@.len() == 12);
    assert("RISCV64_HOST"@.len() == 12);
    assert("LOONGARCH64_HOST"@.len() == 16);
    assert("ZSERIES_HOST"@.len() == 12);
    assert("DARWIN_HOST"@.len() == 11);
    assert("LINUX_HOST"@.len() == 10);
    assert("WINDOWS_HOST"@.len() == 12);
    assert("POSIX_HOST"@.len() == 10);
    assert("ARM64_HOST"@[0] != "LINUX_HOST"@[0]);
    assert("ARM64_HOST"@[0] != "POSIX_HOST"@[0]);
    assert("POWERPC_HOST"@[0] != "RISCV64_HOST"@[0]);
    assert("POWERPC_HOST"@[0] != "ZSERIES_HOST"@[0]);
    assert("POWERPC_HOST"@[0] != "WINDOWS_HOST"@[0]);
    assert("RISCV64_HOST"@[0] != "ZSERIES_HOST"@[0]);
    assert("RISCV64_HOST"@[0] != "WINDOWS_HOST"@[0]);
    assert("ZSERIES_HOST"@[0] != "WINDOWS_HOST"@[0]);
    assert("LINUX_HOST"@[0] != "POSIX_HOST"@[0]);
}

/// Debug, diagnostic and builtin-extension features are disabled on every target.
pub proof fn lemma_diagnostic_and_builtin_features_disabled(os: Seq<char>, arch: Seq<char>)
    ensures
        enabled_features(os, arch).contains_key("HAVE_ATTACH"@),
        enabled_features(os, arch)["HAVE_ATTACH"@] == false,
        enabled_features(os, arch).contains_key("HAVE_CALL_LOG"@),
        enabled_features(os, arch)["HAVE_CALL_LOG"@] == false,
        enabled_features(os, arch).contains_key("HAVE_DIAGNOSTIC"@),
        enabled_features(os, arch)["HAVE_DIAGNOSTIC"@] == false,
        enabled_features(os, arch).contains_key("HAVE_ERROR_LOG"@),
        enabled_features(os, arch)["HAVE_ERROR_LOG"@] == false,
        enabled_features(os, arch).contains_key("HAVE_REF_TRACK"@),
        enabled_features(os, arch)["HAVE_REF_TRACK"@] == false,
        enabled_features(os, arch).contains_key("HAVE_UNITTEST"@),
        enabled_features(os, arch)["HAVE_UNITTEST"@] == false,
        enabled_features(os, arch).contains_key("CODE_COVERAGE_MEASUREMENT"@),
        enabled_features(os, arch)["CODE_COVERAGE_MEASUREMENT"@] == false,
        enabled_features(os, arch).contains_key("INLINE_FUNCTIONS_INSTEAD_OF_MACROS"@),
        enabled_features(os, arch)["INLINE_FUNCTIONS_INSTEAD_OF_MACROS"@] == false,
        enabled_features(os, arch).contains_key("HAVE_UNITTEST_ASSERTS"@),
        enabled_features(os, arch)["HAVE_UNITTEST_ASSERTS"@] == false,
        enabled_features(os, arch).contains_key("HAVE_BUILTIN_EXTENSION_LZ4"@),
        enabled_features(os, arch)["HAVE_BUILTIN_EXTENSION_LZ4"@] == false,
        enabled_features(os, arch).contains_key("HAVE_BUILTIN_EXTENSION_SNAPPY"@),
        enabled_features(os, arch)["HAVE_BUILTIN_EXTENSION_SNAPPY"@] == false,
        enabled_features(os, arch).contains_key("HAVE_BUILTIN_EXTENSION_ZLIB"@),
        enabled_features(os, arch)["HAVE_BUILTIN_EXTENSION_ZLIB"@] == false,
        enabled_features(os, arch).contains_key("HAVE_BUILTIN_EXTENSION_ZSTD"@),
        enabled_features(os, arch)["HAVE_BUILTIN_EXTENSION_ZSTD"@] == false,
        enabled_features(os, arch).contains_key("HAVE_BUILTIN_EXTENSION_IAA"@),
        enabled_features(os, arch)["HAVE_BUILTIN_EXTENSION_IAA"@] == false,
        enabled_features(os, arch).contains_key("HAVE_BUILTIN_EXTENSION_SODIUM"@),
        enabled_features(os, arch)["HAVE_BUILTIN_EXTENSION_SODIUM"@] == false,
        enabled_features(os, arch).contains_key("HAVE_BUILTIN_EXTENSION_KEY_PROVIDER"@),
        enabled_features(os, arch)["HAVE_BUILTIN_EXTENSION_KEY_PROVIDER"@] == false,
{
    broadcast use vstd::string::group_string_axioms;

    reveal_strlit("HAVE_ATTACH");
    reveal_strlit("HAVE_CALL_LOG");
    reveal_strlit("HAVE_DIAGNOSTIC");
    reveal_strlit("HAVE_ERROR_LOG");
    reveal_strlit("HAVE_REF_TRACK");
    reveal_strlit("HAVE_UNITTEST");
    reveal_strlit("CODE_COVERAGE_MEASUREMENT");
    reveal_strlit("INLINE_FUNCTIONS_INSTEAD_OF_MACROS");
    reveal_strlit("HAVE_UNITTEST_ASSERTS");
    reveal_strlit("HAVE_BUILTIN_EXTENSION_LZ4");
    reveal_strlit("HAVE_BUILTIN_EXTENSION_SNAPPY");
    reveal_strlit("HAVE_BUILTIN_EXTENSION_ZLIB");
    reveal_strlit("HAVE_BUILTIN_EXTENSION_ZSTD");
    reveal_strlit("HAVE_BUILTIN_EXTENSION_IAA");
    reveal_strlit("HAVE_BUILTIN_EXTENSION_SODIUM");
    reveal_strlit("HAVE_BUILTIN_EXTENSION_KEY_PROVIDER");
    reveal_strlit("HAVE_FALLOCATE");
    reveal_strlit("HAVE_FDATASYNC");
    reveal_strlit("HAVE_CLOCK_GETTIME");
    reveal_strlit("HAVE_GETTIMEOFDAY");
    reveal_strlit("HAVE_POSIX_FADVISE");
    reveal_strlit("HAVE_POSIX_FALLOCATE");
    reveal_strlit("HAVE_POSIX_MADVISE");
    reveal_strlit("HAVE_POSIX_MEMALIGN");
    reveal_strlit("HAVE_PTHREAD_COND_MONOTONIC");
    reveal_strlit("HAVE_SETRLIMIT");
    reveal_strlit("HAVE_SYNC_FILE_RANGE");
    reveal_strlit("HAVE_TIMER_CREATE");
    reveal_strlit("HAVE_LIBDL");
    reveal_strlit("HAVE_LIBCXX");
    reveal_strlit("HAVE_LIBPTHREAD");
    reveal_strlit("HAVE_LIBRT");
    reveal_strlit("HAVE_LIBACCEL_CONFIG");
    reveal_strlit("HAVE_LIBLZ4");
    reveal_strlit("HAVE_LIBMEMKIND");
    reveal_strlit("ENABLE_MEMKIND");
    reveal_strlit("HAVE_LIBSNAPPY");
    reveal_strlit("ENABLE_ANTITHESIS");
    reveal_strlit("HAVE_LIBZ");
    reveal_strlit("HAVE_LIBZSTD");
    reveal_strlit("HAVE_LIBQPL");
    reveal_strlit("HAVE_LIBSODIUM");
    reveal_strlit("HAVE_X86INTRIN_H");
    reveal_strlit("HAVE_ARM_NEON_INTRIN_H");
    reveal_strlit("HAVE_RCPC");
    reveal_strlit("HAVE_NO_CRC32_HARDWARE");
    reveal_strlit("WORDS_BIGENDIAN");
    reveal_strlit("WT_STANDALONE_BUILD");
    assert("HAVE_ATTACH"@.len() == 11);
    assert("HAVE_CALL_LOG"@.len() == 13);
    assert("HAVE_DIAGNOSTIC"@.len() == 15);
    assert("HAVE_ERROR_LOG"@.len() == 14);
    assert("HAVE_REF_TRACK"@.len() == 14);
    assert("HAVE_UNITTEST"@.len() == 13);
    assert("CODE_COVERAGE_MEASUREMENT"@.len() == 25);
    assert("INLINE_FUNCTIONS_INSTEAD_OF_MACROS"@.len() == 34);
    assert("HAVE_UNITTEST_ASSERTS"@.len() == 21);
    assert("HAVE_BUILTIN_EXTENSION_LZ4"@.len() == 26);
    assert("HAVE_BUILTIN_EXTENSION_SNAPPY"@.len() == 29);
    assert("HAVE_BUILTIN_EXTENSION_ZLIB"@.len() == 27);
    assert("HAVE_BUILTIN_EXTENSION_ZSTD"@.len() == 27);
    assert("HAVE_BUILTIN_EXTENSION_IAA"@.len() == 26);
    assert("HAVE_BUILTIN_EXTENSION_SODIUM"@.len() == 29);
    assert("HAVE_BUILTIN_EXTENSION_KEY_PROVIDER"@.len() == 35);
    assert("HAVE_FALLOCATE"@.len() == 14);
    assert("HAVE_FDATASYNC"@.len() == 14);
    assert("HAVE_CLOCK_GETTIME"@.len() == 18);
    assert("HAVE_GETTIMEOFDAY"@.len() == 17);
    assert("HAVE_POSIX_FADVISE"@.len() == 18);
    assert("HAVE_POSIX_FALLOCATE"@.len() == 20);
    assert("HAVE_POSIX_MADVISE"@.len() == 18);
    assert("HAVE_POSIX_MEMALIGN"@.len() == 19);
    assert("HAVE_PTHREAD_COND_MONOTONIC"@.len() == 27);
    assert("HAVE_SETRLIMIT"@.len() == 14);
    assert("HAVE_SYNC_FILE_RANGE"@.len() == 20);
    assert("HAVE_TIMER_CREATE"@.len() == 17);
    assert("HAVE_LIBDL"@.len() == 10);
    assert("HAVE_LIBCXX"@.len() == 11);
    assert("HAVE_LIBPTHREAD"@.len() == 15);
    assert("HAVE_LIBRT"@.len() == 10);
    assert("HAVE_LIBACCEL_CONFIG"@.len() == 20);
    assert("HAVE_LIBLZ4"@.len() == 11);
    assert("HAVE_LIBMEMKIND"@.len() == 15);
    assert("ENABLE_MEMKIND"@.len() == 14);
    assert("HAVE_LIBSNAPPY"@.len() == 14);
    assert("ENABLE_ANTITHESIS"@.len() == 17);
    assert("HAVE_LIBZ"@.len() == 9);
    assert("HAVE_LIBZSTD"@.len() == 12);
    assert("HAVE_LIBQPL"@.len() == 11);
    assert("HAVE_LIBSODIUM"@.len() == 14);
    assert("HAVE_X86INTRIN_H"@.len() == 16);
    assert("HAVE_ARM_NEON_INTRIN_H"@.len() == 22);
    assert("HAVE_RCPC"@.len() == 9);
    assert("HAVE_NO_CRC32_HARDWARE"@.len() == 22);
    assert("WORDS_BIGENDIAN"@.len() == 15);
    assert("WT_STANDALONE_BUILD"@.len() == 19);
    assert("HAVE_ATTACH"@[5] != "HAVE_LIBCXX"@[5]);
    assert("HAVE_ATTACH"@[5] != "HAVE_LIBLZ4"@[5]);
    assert("HAVE_ATTACH"@[5] != "HAVE_LIBQPL"@[5]);
    assert("HAVE_CALL_LOG"@[5] != "HAVE_UNITTEST"@[5]);
    assert("HAVE_DIAGNOSTIC"@[5] != "HAVE_LIBPTHREAD"@[5]);
    assert("HAVE_DIAGNOSTIC"@[5] != "HAVE_LIBMEMKIND"@[5]);
    assert("HAVE_DIAGNOSTIC"@[0] != "WORDS_BIGENDIAN"@[0]);
    assert("HAVE_ERROR_LOG"@[5] != "HAVE_REF_TRACK"@[5]);
    assert("HAVE_ERROR_LOG"@[5] != "HAVE_FALLOCATE"@[5]);
    assert("HAVE_ERROR_LOG"@[5] != "HAVE_FDATASYNC"@[5]);
    assert("HAVE_ERROR_LOG"@[5] != "HAVE_SETRLIMIT"@[5]);
    assert("HAVE_ERROR_LOG"@[0] != "ENABLE_MEMKIND"@[0]);
    assert("HAVE_ERROR_LOG"@[5] != "HAVE_LIBSNAPPY"@[5]);
    assert("HAVE_ERROR_LOG"@[5] != "HAVE_LIBSODIUM"@[5]);
    assert("HAVE_REF_TRACK"@[5] != "HAVE_FALLOCATE"@[5]);
    assert("HAVE_REF_TRACK"@[5] != "HAVE_FDATASYNC"@[5]);
    assert("HAVE_REF_TRACK"@[5] != "HAVE_SETRLIMIT"@[5]);
    assert("HAVE_REF_TRACK"@[0] != "ENABLE_MEMKIND"@[0]);
    assert("HAVE_REF_TRACK"@[5] != "HAVE_LIBSNAPPY"@[5]);
    assert("HAVE_REF_TRACK"@[5] != "HAVE_LIBSODIUM"@[5]);
    assert("HAVE_BUILTIN_EXTENSION_LZ4"@[23] != "HAVE_BUILTIN_EXTENSION_IAA"@[23]);
    assert("HAVE_BUILTIN_EXTENSION_SNAPPY"@[24] != "HAVE_BUILTIN_EXTENSION_SODIUM"@[24]);
    assert("HAVE_BUILTIN_EXTENSION_ZLIB"@[24] != "HAVE_BUILTIN_EXTENSION_ZSTD"@[24]);
    assert("HAVE_BUILTIN_EXTENSION_ZLIB"@[5] != "HAVE_PTHREAD_COND_MONOTONIC"@[5]);
    assert("HAVE_BUILTIN_EXTENSION_ZSTD"@[5] != "HAVE_PTHREAD_COND_MONOTONIC"@[5]);
    assert("HAVE_FALLOCATE"@[6] != "HAVE_FDATASYNC"@[6]);
    assert("HAVE_FALLOCATE"@[5] != "HAVE_SETRLIMIT"@[5]);
    assert("HAVE_FALLOCATE"@[0] != "ENABLE_MEMKIND"@[0]);
    assert("HAVE_FALLOCATE"@[5] != "HAVE_LIBSNAPPY"@[5]);
    assert("HAVE_FALLOCATE"@[5] != "HAVE_LIBSODIUM"@[5]);
    assert("HAVE_FDATASYNC"@[5] != "HAVE_SETRLIMIT"@[5]);
    assert("HAVE_FDATASYNC"@[0] != "ENABLE_MEMKIND"@[0]);
    assert("HAVE_FDATASYNC"@[5] != "HAVE_LIBSNAPPY"@[5]);
    assert("HAVE_FDATASYNC"@[5] != "HAVE_LIBSODIUM"@[5]);
    assert("HAVE_CLOCK_GETTIME"@[5] != "HAVE_POSIX_FADVISE"@[5]);
    assert("HAVE_CLOCK_GETTIME"@[5] != "HAVE_POSIX_MADVISE"@[5]);
    assert("HAVE_GETTIMEOFDAY"@[5] != "HAVE_TIMER_CREATE"@[5]);
    assert("HAVE_GETTIMEOFDAY"@[0] != "ENABLE_ANTITHESIS"@[0]);
    assert("HAVE_POSIX_FADVISE"@[11] != "HAVE_POSIX_MADVISE"@[11]);
    assert("HAVE_POSIX_FALLOCATE"@[5] != "HAVE_SYNC_FILE_RANGE"@[5]);
    assert("HAVE_POSIX_FALLOCATE"@[5] != "HAVE_LIBACCEL_CONFIG"@[5]);
    assert("HAVE_POSIX_MEMALIGN"@[0] != "WT_STANDALONE_BUILD"@[0]);
    assert("HAVE_SETRLIMIT"@[0] != "ENABLE_MEMKIND"@[0]);
    assert("HAVE_SETRLIMIT"@[5] != "HAVE_LIBSNAPPY"@[5]);
    assert("HAVE_SETRLIMIT"@[5] != "HAVE_LIBSODIUM"@[5]);
    assert("HAVE_SYNC_FILE_RANGE"@[5] != "HAVE_LIBACCEL_CONFIG"@[5]);
    assert("HAVE_TIMER_CREATE"@[0] != "ENABLE_ANTITHESIS"@[0]);
    assert("HAVE_LIBDL"@[8] != "HAVE_LIBRT"@[8]);
    assert("HAVE_LIBCXX"@[8] != "HAVE_LIBLZ4"@[8]);
    assert("HAVE_LIBCXX"@[8] != "HAVE_LIBQPL"@[8]);
    assert("HAVE_LIBPTHREAD"@[8] != "HAVE_LIBMEMKIND"@[8]);
    assert("HAVE_LIBPTHREAD"@[0] != "WORDS_BIGENDIAN"@[0]);
    assert("HAVE_LIBLZ4"@[8] != "HAVE_LIBQPL"@[8]);
    assert("HAVE_LIBMEMKIND"@[0] != "WORDS_BIGENDIAN"@[0]);
    assert("ENABLE_MEMKIND"@[0] != "HAVE_LIBSNAPPY"@[0]);
    assert("ENABLE_MEMKIND"@[0] != "HAVE_LIBSODIUM"@[0]);
    assert("HAVE_LIBSNAPPY"@[9] != "HAVE_LIBSODIUM"@[9]);
    assert("HAVE_LIBZ"@[5] != "HAVE_RCPC"@[5]);
    assert("HAVE_ARM_NEON_INTRIN_H"@[5] != "HAVE_NO_CRC32_HARDWARE"@[5]);
}

/// The POSIX function features (and `HAVE_LIBDL`, `HAVE_LIBPTHREAD`) are enabled exactly on macos, ios, linux and android; the Linux-only ones (`HAVE_FALLOCATE`, `HAVE_POSIX_FADVISE`, `HAVE_POSIX_FALLOCATE`, `HAVE_PTHREAD_COND_MONOTONIC`, `HAVE_SYNC_FILE_RANGE`, `HAVE_TIMER_CREATE`, `HAVE_LIBRT`) exactly on linux and android.
pub proof fn lemma_posix_function_features(os: Seq<char>, arch: Seq<char>)
    ensures
        enabled_features(os, arch).contains_key("HAVE_FALLOCATE"@),
        enabled_features(os, arch)["HAVE_FALLOCATE"@] == (os == "linux"@ || os == "android"@),
        enabled_features(os, arch).contains_key("HAVE_FDATASYNC"@),
        enabled_features(os, arch)["HAVE_FDATASYNC"@] == (os == "macos"@ || os == "ios"@ || os == "linux"@ || os == "android"@),
        enabled_features(os, arch).contains_key("HAVE_CLOCK_GETTIME"@),
        enabled_features(os, arch)["HAVE_CLOCK_GETTIME"@] == (os == "macos"@ || os == "ios"@ || os == "linux"@ || os == "android"@),
        enabled_features(os, arch).contains_key("HAVE_GETTIMEOFDAY"@),
        enabled_features(os, arch)["HAVE_GETTIMEOFDAY"@] == (os == "macos"@ || os == "ios"@ || os == "linux"@ || os == "android"@),
        enabled_features(os, arch).contains_key("HAVE_POSIX_FADVISE"@),
        enabled_features(os, arch)["HAVE_POSIX_FADVISE"@] == (os == "linux"@ || os == "android"@),
        enabled_features(os, arch).contains_key("HAVE_POSIX_FALLOCATE"@),
        enabled_features(os, arch)["HAVE_POSIX_FALLOCATE"@] == (os == "linux"@ || os == "android"@),
        enabled_features(os, arch).contains_key("HAVE_POSIX_MADVISE"@),
        enabled_features(os, arch)["HAVE_POSIX_MADVISE"@] == (os == "macos"@ || os == "ios"@ || os == "linux"@ || os == "android"@),
        enabled_features(os, arch).contains_key("HAVE_POSIX_MEMALIGN"@),
        enabled_features(os, arch)["HAVE_POSIX_MEMALIGN"@] == (os == "macos"@ || os == "ios"@ || os == "linux"@ || os == "android"@),
        enabled_features(os, arch).contains_key("HAVE_PTHREAD_COND_MONOTONIC"@),
        enabled_features(os, arch)["HAVE_PTHREAD_COND_MONOTONIC"@] == (os == "linux"@ || os == "android"@),
        enabled_features(os, arch).contains_key("HAVE_SETRLIMIT"@),
        enabled_features(os, arch)["HAVE_SETRLIMIT"@] == (os == "macos"@ || os == "ios"@ || os == "linux"@ || os == "android"@),
        enabled_features(os, arch).contains_key("HAVE_SYNC_FILE_RANGE"@),
        enabled_features(os, arch)["HAVE_SYNC_FILE_RANGE"@] == (os == "linux"@ || os == "android"@),
        enabled_features(os, arch).contains_key("HAVE_TIMER_CREATE"@),
        enabled_features(os, arch)["HAVE_TIMER_CREATE"@] == (os == "linux"@ || os == "android"@),
        enabled_features(os, arch).contains_key("HAVE_LIBDL"@),
        enabled_features(os, arch)["HAVE_LIBDL"@] == (os == "macos"@ || os == "ios"@ || os == "linux"@ || os == "android"@),
        enabled_features(os, arch).contains_key("HAVE_LIBPTHREAD"@),
        enabled_features(os, arch)["HAVE_LIBPTHREAD"@] == (os == "macos"@ || os == "ios"@ || os == "linux"@ || os == "android"@),
        enabled_features(os, arch).contains_key("HAVE_LIBRT"@),
        enabled_features(os, arch)["HAVE_LIBRT"@] == (os == "linux"@ || os == "android"@),
{
    broadcast use vstd::string::group_string_axioms;

    reveal_strlit("HAVE_ATTACH");
    reveal_strlit("HAVE_CALL_LOG");
    reveal_strlit("HAVE_DIAGNOSTIC");
    reveal_strlit("HAVE_ERROR_LOG");
    reveal_strlit("HAVE_REF_TRACK");
    reveal_strlit("HAVE_UNITTEST");
    reveal_strlit("CODE_COVERAGE_MEASUREMENT");
    reveal_strlit("INLINE_FUNCTIONS_INSTEAD_OF_MACROS");
    reveal_strlit("HAVE_UNITTEST_ASSERTS");
    reveal_strlit("HAVE_BUILTIN_EXTENSION_LZ4");
    reveal_strlit("HAVE_BUILTIN_EXTENSION_SNAPPY");
    reveal_strlit("HAVE_BUILTIN_EXTENSION_ZLIB");
    reveal_strlit("HAVE_BUILTIN_EXTENSION_ZSTD");
    reveal_strlit("HAVE_BUILTIN_EXTENSION_IAA");
    reveal_strlit("HAVE_BUILTIN_EXTENSION_SODIUM");
    reveal_strlit("HAVE_BUILTIN_EXTENSION_KEY_PROVIDER");
    reveal_strlit("HAVE_FALLOCATE");
    reveal_strlit("HAVE_FDATASYNC");
    reveal_strlit("HAVE_CLOCK_GETTIME");
    reveal_strlit("HAVE_GETTIMEOFDAY");
    reveal_strlit("HAVE_POSIX_FADVISE");
    reveal_strlit("HAVE_POSIX_FALLOCATE");
    reveal_strlit("HAVE_POSIX_MADVISE");
    reveal_strlit("HAVE_POSIX_MEMALIGN");
    reveal_strlit("HAVE_PTHREAD_COND_MONOTONIC");
    reveal_strlit("HAVE_SETRLIMIT");
    reveal_strlit("HAVE_SYNC_FILE_RANGE");
    reveal_strlit("HAVE_TIMER_CREATE");
    reveal_strlit("HAVE_LIBDL");
    reveal_strlit("HAVE_LIBCXX");
    reveal_strlit("HAVE_LIBPTHREAD");
    reveal_strlit("HAVE_LIBRT");
    reveal_strlit("HAVE_LIBACCEL_CONFIG");
    reveal_strlit("HAVE_LIBLZ4");
    reveal_strlit("HAVE_LIBMEMKIND");
    reveal_strlit("ENABLE_MEMKIND");
    reveal_strlit("HAVE_LIBSNAPPY");
    reveal_strlit("ENABLE_ANTITHESIS");
    reveal_strlit("HAVE_LIBZ");
    reveal_strlit("HAVE_LIBZSTD");
    reveal_strlit("HAVE_LIBQPL");
    reveal_strlit("HAVE_LIBSODIUM");
    reveal_strlit("HAVE_X86INTRIN_H");
    reveal_strlit("HAVE_ARM_NEON_INTRIN_H");
    reveal_strlit("HAVE_RCPC");
    reveal_strlit("HAVE_NO_CRC32_HARDWARE");
    reveal_strlit("WORDS_BIGENDIAN");
    reveal_strlit("WT_STANDALONE_BUILD");
    assert("HAVE_ATTACH"@.len() == 11);
    assert("HAVE_CALL_LOG"@.len() == 13);
    assert("HAVE_DIAGNOSTIC"@.len() == 15);
    assert("HAVE_ERROR_LOG"@.len() == 14);
    assert("HAVE_REF_TRACK"@.len() == 14);
    assert("HAVE_UNITTEST"@.len() == 13);
    assert("CODE_COVERAGE_MEASUREMENT"@.len() == 25);
    assert("INLINE_FUNCTIONS_INSTEAD_OF_MACROS"@.len() == 34);
    assert("HAVE_UNITTEST_ASSERTS"@.len() == 21);
    assert("HAVE_BUILTIN_EXTENSION_LZ4"@.len() == 26);
    assert("HAVE_BUILTIN_EXTENSION_SNAPPY"@.len() == 29);
    assert("HAVE_BUILTIN_EXTENSION_ZLIB"@.len() == 27);
    assert("HAVE_BUILTIN_EXTENSION_ZSTD"@.len() == 27);
    assert("HAVE_BUILTIN_EXTENSION_IAA"@.len() == 26);
    assert("HAVE_BUILTIN_EXTENSION_SODIUM"@.len() == 29);
    assert("HAVE_BUILTIN_EXTENSION_KEY_PROVIDER"@.len() == 35);
    assert("HAVE_FALLOCATE"@.len() == 14);
    assert("HAVE_FDATASYNC"@.len() == 14);
    assert("HAVE_CLOCK_GETTIME"@.len() == 18);
    assert("HAVE_GETTIMEOFDAY"@.len() == 17);
    assert("HAVE_POSIX_FADVISE"@.len() == 18);
    assert("HAVE_POSIX_FALLOCATE"@.len() == 20);
    assert("HAVE_POSIX_MADVISE"@.len() == 18);
    assert("HAVE_POSIX_MEMALIGN"@.len() == 19);
    assert("HAVE_PTHREAD_COND_MONOTONIC"@.len() == 27);
    assert("HAVE_SETRLIMIT"@.len() == 14);
    assert("HAVE_SYNC_FILE_RANGE"@.len() == 20);
    assert("HAVE_TIMER_CREATE"@.len() == 17);
    assert("HAVE_LIBDL"@.len() == 10);
    assert("HAVE_LIBCXX"@.len() == 11);
    assert("HAVE_LIBPTHREAD"@.len() == 15);
    assert("HAVE_LIBRT"@.len() == 10);
    assert("HAVE_LIBACCEL_CONFIG"@.len() == 20);
    assert("HAVE_LIBLZ4"@.len() == 11);
    assert("HAVE_LIBMEMKIND"@.len() == 15);
    assert("ENABLE_MEMKIND"@.len() == 14);
    assert("HAVE_LIBSNAPPY"@.len() == 14);
    assert("ENABLE_ANTITHESIS"@.len() == 17);
    assert("HAVE_LIBZ"@.len() == 9);
    assert("HAVE_LIBZSTD"@.len() == 12);
    assert("HAVE_LIBQPL"@.len() == 11);
    assert("HAVE_LIBSODIUM"@.len() == 14);
    assert("HAVE_X86INTRIN_H"@.len() == 16);
    assert("HAVE_ARM_NEON_INTRIN_H"@.len() == 22);
    assert("HAVE_RCPC"@.len() == 9);
    assert("HAVE_NO_CRC32_HARDWARE"@.len() == 22);
    assert("WORDS_BIGENDIAN"@.len() == 15);
    assert("WT_STANDALONE_BUILD"@.len() == 19);
    assert("HAVE_ATTACH"@[5] != "HAVE_LIBCXX"@[5]);
    assert("HAVE_ATTACH"@[5] != "HAVE_LIBLZ4"@[5]);
    assert("HAVE_ATTACH"@[5] != "HAVE_LIBQPL"@[5]);
    assert("HAVE_CALL_LOG"@[5] != "HAVE_UNITTEST"@[5]);
    assert("HAVE_DIAGNOSTIC"@[5] != "HAVE_LIBPTHREAD"@[5]);
    assert("HAVE_DIAGNOSTIC"@[5] != "HAVE_LIBMEMKIND"@[5]);
    assert("HAVE_DIAGNOSTIC"@[0] != "WORDS_BIGENDIAN"@[0]);
    assert("HAVE_ERROR_LOG"@[5] != "HAVE_REF_TRACK"@[5]);
    assert("HAVE_ERROR_LOG"@[5] != "HAVE_FALLOCATE"@[5]);
    assert("HAVE_ERROR_LOG"@[5] != "HAVE_FDATASYNC"@[5]);
    assert("HAVE_ERROR_LOG"@[5] != "HAVE_SETRLIMIT"@[5]);
    assert("HAVE_ERROR_LOG"@[0] != "ENABLE_MEMKIND"@[0]);
    assert("HAVE_ERROR_LOG"@[5] != "HAVE_LIBSNAPPY"@[5]);
    assert("HAVE_ERROR_LOG"@[5] != "HAVE_LIBSODIUM"@[5]);
    assert("HAVE_REF_TRACK"@[5] != "HAVE_FALLOCATE"@[5]);
    assert("HAVE_REF_TRACK"@[5] != "HAVE_FDATASYNC"@[5]);
    assert("HAVE_REF_TRACK"@[5] != "HAVE_SETRLIMIT"@[5]);
    assert("HAVE_REF_TRACK"@[0] != "ENABLE_MEMKIND"@[0]);
    assert("HAVE_REF_TRACK"@[5] != "HAVE_LIBSNAPPY"@[5]);
    assert("HAVE_REF_TRACK"@[5] != "HAVE_LIBSODIUM"@[5]);
    assert("HAVE_BUILTIN_EXTENSION_LZ4"@[23] != "HAVE_BUILTIN_EXTENSION_IAA"@[23]);
    assert("HAVE_BUILTIN_EXTENSION_SNAPPY"@[24] != "HAVE_BUILTIN_EXTENSION_SODIUM"@[24]);
    assert("HAVE_BUILTIN_EXTENSION_ZLIB"@[24] != "HAVE_BUILTIN_EXTENSION_ZSTD"@[24]);
    assert("HAVE_BUILTIN_EXTENSION_ZLIB"@[5] != "HAVE_PTHREAD_COND_MONOTONIC"@[5]);
    assert("HAVE_BUILTIN_EXTENSION_ZSTD"@[5] != "HAVE_PTHREAD_COND_MONOTONIC"@[5]);
    assert("HAVE_FALLOCATE"@[6] != "HAVE_FDATASYNC"@[6]);
    assert("HAVE_FALLOCATE"@[5] != "HAVE_SETRLIMIT"@[5]);
    assert("HAVE_FALLOCATE"@[0] != "ENABLE_MEMKIND"@[0]);
    assert("HAVE_FALLOCATE"@[5] != "HAVE_LIBSNAPPY"@[5]);
    assert("HAVE_FALLOCATE"@[5] != "HAVE_LIBSODIUM"@[5]);
    assert("HAVE_FDATASYNC"@[5] != "HAVE_SETRLIMIT"@[5]);
    assert("HAVE_FDATASYNC"@[0] != "ENABLE_MEMKIND"@[0]);
    assert("HAVE_FDATASYNC"@[5] != "HAVE_LIBSNAPPY"@[5]);
    assert("HAVE_FDATASYNC"@[5] != "HAVE_LIBSODIUM"@[5]);
    assert("HAVE_CLOCK_GETTIME"@[5] != "HAVE_POSIX_FADVISE"@[5]);
    assert("HAVE_CLOCK_GETTIME"@[5] != "HAVE_POSIX_MADVISE"@[5]);
    assert("HAVE_GETTIMEOFDAY"@[5] != "HAVE_TIMER_CREATE"@[5]);
    assert("HAVE_GETTIMEOFDAY"@[0] != "ENABLE_ANTITHESIS"@[0]);
    assert("HAVE_POSIX_FADVISE"@[11] != "HAVE_POSIX_MADVISE"@[11]);
    assert("HAVE_POSIX_FALLOCATE"@[5] != "HAVE_SYNC_FILE_RANGE"@[5]);
    assert("HAVE_POSIX_FALLOCATE"@[5] != "HAVE_LIBACCEL_CONFIG"@[5]);
    assert("HAVE_POSIX_MEMALIGN"@[0] != "WT_STANDALONE_BUILD"@[0]);
    assert("HAVE_SETRLIMIT"@[0] != "ENABLE_MEMKIND"@[0]);
    assert("HAVE_SETRLIMIT"@[5] != "HAVE_LIBSNAPPY"@[5]);
    assert("HAVE_SETRLIMIT"@[5] != "HAVE_LIBSODIUM"@[5]);
    assert("HAVE_SYNC_FILE_RANGE"@[5] != "HAVE_LIBACCEL_CONFIG"@[5]);
    assert("HAVE_TIMER_CREATE"@[0] != "ENABLE_ANTITHESIS"@[0]);
    assert("HAVE_LIBDL"@[8] != "HAVE_LIBRT"@[8]);
    assert("HAVE_LIBCXX"@[8] != "HAVE_LIBLZ4"@[8]);
    assert("HAVE_LIBCXX"@[8] != "HAVE_LIBQPL"@[8]);
    assert("HAVE_LIBPTHREAD"@[8] != "HAVE_LIBMEMKIND"@[8]);
    assert("HAVE_LIBPTHREAD"@[0] != "WORDS_BIGENDIAN"@[0]);
    assert("HAVE_LIBLZ4"@[8] != "HAVE_LIBQPL"@[8]);
    assert("HAVE_LIBMEMKIND"@[0] != "WORDS_BIGENDIAN"@[0]);
    assert("ENABLE_MEMKIND"@[0] != "HAVE_LIBSNAPPY"@[0]);
    assert("ENABLE_MEMKIND"@[0] != "HAVE_LIBSODIUM"@[0]);
    assert("HAVE_LIBSNAPPY"@[9] != "HAVE_LIBSODIUM"@[9]);
    assert("HAVE_LIBZ"@[5] != "HAVE_RCPC"@[5]);
    assert("HAVE_ARM_NEON_INTRIN_H"@[5] != "HAVE_NO_CRC32_HARDWARE"@[5]);
}

/// Optional libraries and hardware features: `HAVE_LIBCXX` and `WT_STANDALONE_BUILD` are always enabled, `HAVE_X86INTRIN_H` exactly on x86 and x86_64, `HAVE_ARM_NEON_INTRIN_H` exactly on aarch64, and the other optional libraries and hardware features are disabled.
pub proof fn lemma_library_and_hardware_features(os: Seq<char>, arch: Seq<char>)
    ensures
        enabled_features(os, arch).contains_key("HAVE_LIBCXX"@),
        enabled_features(os, arch)["HAVE_LIBCXX"@] == true,
        enabled_features(os, arch).contains_key("HAVE_LIBACCEL_CONFIG"@),
        enabled_features(os, arch)["HAVE_LIBACCEL_CONFIG"@] == false,
        enabled_features(os, arch).contains_key("HAVE_LIBLZ4"@),
        enabled_features(os, arch)["HAVE_LIBLZ4"@] == false,
        enabled_features(os, arch).contains_key("HAVE_LIBMEMKIND"@),
        enabled_features(os, arch)["HAVE_LIBMEMKIND"@] == false,
        enabled_features(os, arch).contains_key("ENABLE_MEMKIND"@),
        enabled_features(os, arch)["ENABLE_MEMKIND"@] == false,
        enabled_features(os, arch).contains_key("HAVE_LIBSNAPPY"@),
        enabled_features(os, arch)["HAVE_LIBSNAPPY"@] == false,
        enabled_features(os, arch).contains_key("ENABLE_ANTITHESIS"@),
        enabled_features(os, arch)["ENABLE_ANTITHESIS"@] == false,
        enabled_features(os, arch).contains_key("HAVE_LIBZ"@),
        enabled_features(os, arch)["HAVE_LIBZ"@] == false,
        enabled_features(os, arch).contains_key("HAVE_LIBZSTD"@),
        enabled_features(os, arch)["HAVE_LIBZSTD"@] == false,
        enabled_features(os, arch).contains_key("HAVE_LIBQPL"@),
        enabled_features(os, arch)["HAVE_LIBQPL"@] == false,
        enabled_features(os, arch).contains_key("HAVE_LIBSODIUM"@),
        enabled_features(os, arch)["HAVE_LIBSODIUM"@] == false,
        enabled_features(os, arch).contains_key("HAVE_X86INTRIN_H"@),
        enabled_features(os, arch)["HAVE_X86INTRIN_H"@] == (arch == "x86"@ || arch == "x86_64"@),
        enabled_features(os, arch).contains_key("HAVE_ARM_NEON_INTRIN_H"@),
        enabled_features(os, arch)["HAVE_ARM_NEON_INTRIN_H"@] == (arch == "aarch64"@),
        enabled_features(os, arch).contains_key("HAVE_RCPC"@),
        enabled_features(os, arch)["HAVE_RCPC"@] == false,
        enabled_features(os, arch).contains_key("HAVE_NO_CRC32_HARDWARE"@),
        enabled_features(os, arch)["HAVE_NO_CRC32_HARDWARE"@] == false,
        enabled_features(os, arch).contains_key("WORDS_BIGENDIAN"@),
        enabled_features(os, arch)["WORDS_BIGENDIAN"@] == false,
        enabled_features(os, arch).contains_key("WT_STANDALONE_BUILD"@),
        enabled_features(os, arch)["WT_STANDALONE_BUILD"@] == true,
{
    broadcast use vstd::string::group_string_axioms;

    reveal_strlit("HAVE_ATTACH");
    reveal_strlit("HAVE_CALL_LOG");
    reveal_strlit("HAVE_DIAGNOSTIC");
    reveal_strlit("HAVE_ERROR_LOG");
    reveal_strlit("HAVE_REF_TRACK");
    reveal_strlit("HAVE_UNITTEST");
    reveal_strlit("CODE_COVERAGE_MEASUREMENT");
    reveal_strlit("INLINE_FUNCTIONS_INSTEAD_OF_MACROS");
    reveal_strlit("HAVE_UNITTEST_ASSERTS");
    reveal_strlit("HAVE_BUILTIN_EXTENSION_LZ4");
    reveal_strlit("HAVE_BUILTIN_EXTENSION_SNAPPY");
    reveal_strlit("HAVE_BUILTIN_EXTENSION_ZLIB");
    reveal_strlit("HAVE_BUILTIN_EXTENSION_ZSTD");
    reveal_strlit("HAVE_BUILTIN_EXTENSION_IAA");
    reveal_strlit("HAVE_BUILTIN_EXTENSION_SODIUM");
    reveal_strlit("HAVE_BUILTIN_EXTENSION_KEY_PROVIDER");
    reveal_strlit("HAVE_FALLOCATE");
    reveal_strlit("HAVE_FDATASYNC");
    reveal_strlit("HAVE_CLOCK_GETTIME");
    reveal_strlit("HAVE_GETTIMEOFDAY");
    reveal_strlit("HAVE_POSIX_FADVISE");
    reveal_strlit("HAVE_POSIX_FALLOCATE");
    reveal_strlit("HAVE_POSIX_MADVISE");
    reveal_strlit("HAVE_POSIX_MEMALIGN");
    reveal_strlit("HAVE_PTHREAD_COND_MONOTONIC");
    reveal_strlit("HAVE_SETRLIMIT");
    reveal_strlit("HAVE_SYNC_FILE_RANGE");
    reveal_strlit("HAVE_TIMER_CREATE");
    reveal_strlit("HAVE_LIBDL");
    reveal_strlit("HAVE_LIBCXX");
    reveal_strlit("HAVE_LIBPTHREAD");
    reveal_strlit("HAVE_LIBRT");
    reveal_strlit("HAVE_LIBACCEL_CONFIG");
    reveal_strlit("HAVE_LIBLZ4");
    reveal_strlit("HAVE_LIBMEMKIND");
    reveal_strlit("ENABLE_MEMKIND");
    reveal_strlit("HAVE_LIBSNAPPY");
    reveal_strlit("ENABLE_ANTITHESIS");
    reveal_strlit("HAVE_LIBZ");
    reveal_strlit("HAVE_LIBZSTD");
    reveal_strlit("HAVE_LIBQPL");
    reveal_strlit("HAVE_LIBSODIUM");
    reveal_strlit("HAVE_X86INTRIN_H");
    reveal_strlit("HAVE_ARM_NEON_INTRIN_H");
    reveal_strlit("HAVE_RCPC");
    reveal_strlit("HAVE_NO_CRC32_HARDWARE");
    reveal_strlit("WORDS_BIGENDIAN");
    reveal_strlit("WT_STANDALONE_BUILD");
    assert("HAVE_ATTACH"@.len() == 11);
    assert("HAVE_CALL_LOG"@.len() == 13);
    assert("HAVE_DIAGNOSTIC"@.len() == 15);
    assert("HAVE_ERROR_LOG"@.len() == 14);
    assert("HAVE_REF_TRACK"@.len() == 14);
    assert("HAVE_UNITTEST"@.len() == 13);
    assert("CODE_COVERAGE_MEASUREMENT"@.len() == 25);
    assert("INLINE_FUNCTIONS_INSTEAD_OF_MACROS"@.len() == 34);
    assert("HAVE_UNITTEST_ASSERTS"@.len() == 21);
    assert("HAVE_BUILTIN_EXTENSION_LZ4"@.len() == 26);
    assert("HAVE_BUILTIN_EXTENSION_SNAPPY"@.len() == 29);
    assert("HAVE_BUILTIN_EXTENSION_ZLIB"@.len() == 27);
    assert("HAVE_BUILTIN_EXTENSION_ZSTD"@.len() == 27);
    assert("HAVE_BUILTIN_EXTENSION_IAA"@.len() == 26);
    assert("HAVE_BUILTIN_EXTENSION_SODIUM"@.len() == 29);
    assert("HAVE_BUILTIN_EXTENSION_KEY_PROVIDER"@.len() == 35);
    assert("HAVE_FALLOCATE"@.len() == 14);
    assert("HAVE_FDATASYNC"@.len() == 14);
    assert("HAVE_CLOCK_GETTIME"@.len() == 18);
    assert("HAVE_GETTIMEOFDAY"@.len() == 17);
    assert("HAVE_POSIX_FADVISE"@.len() == 18);
    assert("HAVE_POSIX_FALLOCATE"@.len() == 20);
    assert("HAVE_POSIX_MADVISE"@.len() == 18);
    assert("HAVE_POSIX_MEMALIGN"@.len() == 19);
    assert("HAVE_PTHREAD_COND_MONOTONIC"@.len() == 27);
    assert("HAVE_SETRLIMIT"@.len() == 14);
    assert("HAVE_SYNC_FILE_RANGE"@.len() == 20);
    assert("HAVE_TIMER_CREATE"@.len() == 17);
    assert("HAVE_LIBDL"@.len() == 10);
    assert("HAVE_LIBCXX"@.len() == 11);
    assert("HAVE_LIBPTHREAD"@.len() == 15);
    assert("HAVE_LIBRT"@.len() == 10);
    assert("HAVE_LIBACCEL_CONFIG"@.len() == 20);
    assert("HAVE_LIBLZ4"@.len() == 11);
    assert("HAVE_LIBMEMKIND"@.len() == 15);
    assert("ENABLE_MEMKIND"@.len() == 14);
    assert("HAVE_LIBSNAPPY"@.len() == 14);
    assert("ENABLE_ANTITHESIS"@.len() == 17);
    assert("HAVE_LIBZ"@.len() == 9);
    assert("HAVE_LIBZSTD"@.len() == 12);
    assert("HAVE_LIBQPL"@.len() == 11);
    assert("HAVE_LIBSODIUM"@.len() == 14);
    assert("HAVE_X86INTRIN_H"@.len() == 16);
    assert("HAVE_ARM_NEON_INTRIN_H"@.len() == 22);
    assert("HAVE_RCPC"@.len() == 9);
    assert("HAVE_NO_CRC32_HARDWARE"@.len() == 22);
    assert("WORDS_BIGENDIAN"@.len() == 15);
    assert("WT_STANDALONE_BUILD"@.len() == 19);
    assert("HAVE_ATTACH"@[5] != "HAVE_LIBCXX"@[5]);
    assert("HAVE_ATTACH"@[5] != "HAVE_LIBLZ4"@[5]);
    assert("HAVE_ATTACH"@[5] != "HAVE_LIBQPL"@[5]);
    assert("HAVE_CALL_LOG"@[5] != "HAVE_UNITTEST"@[5]);
    assert("HAVE_DIAGNOSTIC"@[5] != "HAVE_LIBPTHREAD"@[5]);
    assert("HAVE_DIAGNOSTIC"@[5] != "HAVE_LIBMEMKIND"@[5]);
    assert("HAVE_DIAGNOSTIC"@[0] != "WORDS_BIGENDIAN"@[0]);
    assert("HAVE_ERROR_LOG"@[5] != "HAVE_REF_TRACK"@[5]);
    assert("HAVE_ERROR_LOG"@[5] != "HAVE_FALLOCATE"@[5]);
    assert("HAVE_ERROR_LOG"@[5] != "HAVE_FDATASYNC"@[5]);
    assert("HAVE_ERROR_LOG"@[5] != "HAVE_SETRLIMIT"@[5]);
    assert("HAVE_ERROR_LOG"@[0] != "ENABLE_MEMKIND"@[0]);
    assert("HAVE_ERROR_LOG"@[5] != "HAVE_LIBSNAPPY"@[5]);
    assert("HAVE_ERROR_LOG"@[5] != "HAVE_LIBSODIUM"@[5]);
    assert("HAVE_REF_TRACK"@[5] != "HAVE_FALLOCATE"@[5]);
    assert("HAVE_REF_TRACK"@[5] != "HAVE_FDATASYNC"@[5]);
    assert("HAVE_REF_TRACK"@[5] != "HAVE_SETRLIMIT"@[5]);
    assert("HAVE_REF_TRACK"@[0] != "ENABLE_MEMKIND"@[0]);
    assert("HAVE_REF_TRACK"@[5] != "HAVE_LIBSNAPPY"@[5]);
    assert("HAVE_REF_TRACK"@[5] != "HAVE_LIBSODIUM"@[5]);
    assert("HAVE_BUILTIN_EXTENSION_LZ4"@[23] != "HAVE_BUILTIN_EXTENSION_IAA"@[23]);
    assert("HAVE_BUILTIN_EXTENSION_SNAPPY"@[24] != "HAVE_BUILTIN_EXTENSION_SODIUM"@[24]);
    assert("HAVE_BUILTIN_EXTENSION_ZLIB"@[24] != "HAVE_BUILTIN_EXTENSION_ZSTD"@[24]);
    assert("HAVE_BUILTIN_EXTENSION_ZLIB"@[5] != "HAVE_PTHREAD_COND_MONOTONIC"@[5]);
    assert("HAVE_BUILTIN_EXTENSION_ZSTD"@[5] != "HAVE_PTHREAD_COND_MONOTONIC"@[5]);
    assert("HAVE_FALLOCATE"@[6] != "HAVE_FDATASYNC"@[6]);
    assert("HAVE_FALLOCATE"@[5] != "HAVE_SETRLIMIT"@[5]);
    assert("HAVE_FALLOCATE"@[0] != "ENABLE_MEMKIND"@[0]);
    assert("HAVE_FALLOCATE"@[5] != "HAVE_LIBSNAPPY"@[5]);
    assert("HAVE_FALLOCATE"@[5] != "HAVE_LIBSODIUM"@[5]);
    assert("HAVE_FDATASYNC"@[5] != "HAVE_SETRLIMIT"@[5]);
    assert("HAVE_FDATASYNC"@[0] != "ENABLE_MEMKIND"@[0]);
    assert("HAVE_FDATASYNC"@[5] != "HAVE_LIBSNAPPY"@[5]);
    assert("HAVE_FDATASYNC"@[5] != "HAVE_LIBSODIUM"@[5]);
    assert("HAVE_CLOCK_GETTIME"@[5] != "HAVE_POSIX_FADVISE"@[5]);
    assert("HAVE_CLOCK_GETTIME"@[5] != "HAVE_POSIX_MADVISE"@[5]);
    assert("HAVE_GETTIMEOFDAY"@[5] != "HAVE_TIMER_CREATE"@[5]);
    assert("HAVE_GETTIMEOFDAY"@[0] != "ENABLE_ANTITHESIS"@[0]);
    assert("HAVE_POSIX_FADVISE"@[11] != "HAVE_POSIX_MADVISE"@[11]);
    assert("HAVE_POSIX_FALLOCATE"@[5] != "HAVE_SYNC_FILE_RANGE"@[5]);
    assert("HAVE_POSIX_FALLOCATE"@[5] != "HAVE_LIBACCEL_CONFIG"@[5]);
    assert("HAVE_POSIX_MEMALIGN"@[0] != "WT_STANDALONE_BUILD"@[0]);
    assert("HAVE_SETRLIMIT"@[0] != "ENABLE_MEMKIND"@[0]);
    assert("HAVE_SETRLIMIT"@[5] != "HAVE_LIBSNAPPY"@[5]);
    assert("HAVE_SETRLIMIT"@[5] != "HAVE_LIBSODIUM"@[5]);
    assert("HAVE_SYNC_FILE_RANGE"@[5] != "HAVE_LIBACCEL_CONFIG"@[5]);
    assert("HAVE_TIMER_CREATE"@[0] != "ENABLE_ANTITHESIS"@[0]);
    assert("HAVE_LIBDL"@[8] != "HAVE_LIBRT"@[8]);
    assert("HAVE_LIBCXX"@[8] != "HAVE_LIBLZ4"@[8]);
    assert("HAVE_LIBCXX"@[8] != "HAVE_LIBQPL"@[8]);
    assert("HAVE_LIBPTHREAD"@[8] != "HAVE_LIBMEMKIND"@[8]);
    assert("HAVE_LIBPTHREAD"@[0] != "WORDS_BIGENDIAN"@[0]);
    assert("HAVE_LIBLZ4"@[8] != "HAVE_LIBQPL"@[8]);
    assert("HAVE_LIBMEMKIND"@[0] != "WORDS_BIGENDIAN"@[0]);
    assert("ENABLE_MEMKIND"@[0] != "HAVE_LIBSNAPPY"@[0]);
    assert("ENABLE_MEMKIND"@[0] != "HAVE_LIBSODIUM"@[0]);
    assert("HAVE_LIBSNAPPY"@[9] != "HAVE_LIBSODIUM"@[9]);
    assert("HAVE_LIBZ"@[5] != "HAVE_RCPC"@[5]);
    assert("HAVE_ARM_NEON_INTRIN_H"@[5] != "HAVE_NO_CRC32_HARDWARE"@[5]);
}

/// What a `#cmakedefine` line becomes, by the words of the line: a line with
/// fewer than two words is kept inside a comment; a symbol that the table
/// enables becomes `#define SYMBOL` followed by the value word, if any; a
/// symbol that the table disables or does not hold becomes
/// `/* #undef SYMBOL */`, whatever its value word.
pub proof fn lemma_cmakedefine_forms(line: Seq<char>, features: Map<Seq<char>, bool>)
    ensures
        words(line).len() < 2 ==> cmakedefine_output(line, features) == "/* "@ + line + " */"@,
        words(line).len() >= 2 && features.contains_key(words(line)[1]) && features[words(line)[1]]
            && words(line).len() > 2 ==> cmakedefine_output(line, features) == "#define "@ + words(
            line,
        )[1] + " "@ + words(line)[2],
        words(line).len() == 2 && features.contains_key(words(line)[1]) && features[words(
            line,
        )[1]] ==> cmakedefine_output(line, features) == "#define "@ + words(line)[1],
        words(line).len() >= 2 && !(features.contains_key(words(line)[1]) && features[words(
            line,
        )[1]]) ==> cmakedefine_output(line, features) == "/* #undef "@ + words(line)[1] + " */"@,
{
}

/// `#cmakedefine SYMBOL` and `#cmakedefine SYMBOL VALUE`, with one space
/// between the words, become `#define SYMBOL` and `#define SYMBOL VALUE` when
/// the symbol is an enabled feature, and `/* #undef SYMBOL */` otherwise.
pub proof fn lemma_cmakedefine_symbol(
    symbol: Seq<char>,
    value: Seq<char>,
    features: Map<Seq<char>, bool>,
)
    requires
        symbol.len() > 0,
        value.len() > 0,
        forall|k: int| 0 <= k < symbol.len() ==> !is_ws(#[trigger] symbol[k]),
        forall|k: int| 0 <= k < value.len() ==> !is_ws(#[trigger] value[k]),
    ensures
        features.contains_key(symbol) && features[symbol] ==> cmakedefine_output(
            "#cmakedefine "@ + symbol,
            features,
        ) == "#define "@ + symbol,
        features.contains_key(symbol) && features[symbol] ==> cmakedefine_output(
            "#cmakedefine "@ + symbol + " "@ + value,
            features,
        ) == "#define "@ + symbol + " "@ + value,
        !(features.contains_key(symbol) && features[symbol]) ==> cmakedefine_output(
            "#cmakedefine "@ + symbol,
            features,
        ) == "/* #undef "@ + symbol + " */"@,
        !(features.contains_key(symbol) && features[symbol]) ==> cmakedefine_output(
            "#cmakedefine "@ + symbol + " "@ + value,
            features,
        ) == "/* #undef "@ + symbol + " */"@,
{
    broadcast use vstd::string::group_string_axioms;

    reveal_strlit("#cmakedefine");
    reveal_strlit("#cmakedefine ");
    reveal_strlit(" ");
    assert("#cmakedefine"@.len() == 12);
    assert("#cmakedefine "@.len() == 13);
    assert(" "@.len() == 1);
    let w = "#cmakedefine"@;
    assert forall|i: int| 0 <= i < w.len() implies !is_ws(#[trigger] w[i]) by {
        if i == 0 {
        } else if i == 1 {
        } else if i == 2 {
        } else if i == 3 {
        } else if i == 4 {
        } else if i == 5 {
        } else if i == 6 {
        } else if i == 7 {
        } else if i == 8 {
        } else if i == 9 {
        } else if i == 10 {
        } else if i == 11 {
        }
    }
    assert(is_ws(' '));
    let one = "#cmakedefine "@ + symbol;
    assert(one =~= w.push(' ') + symbol);
    lemma_words_split(w, ' ', symbol);
    lemma_words_split(symbol, ' ', value);
    assert(words(one) =~= seq![w, symbol]);
    let two = "#cmakedefine "@ + symbol + " "@ + value;
    assert(two =~= w.push(' ') + (symbol.push(' ') + value));
    lemma_words_split(w, ' ', symbol.push(' ') + value);
    lemma_words_split(value, ' ', value);
    assert(words(two) =~= seq![w, symbol, value]);
}

/// The filter of a source-list line, given its words: the second word, if any.
pub open spec fn filter_word(w: Seq<Seq<char>>) -> Seq<char> {
    if w.len() > 1 {
        w[1]
    } else {
        Seq::empty()
    }
}

/// Line `line` of a source list names the file `path` for the target: it is
/// neither blank nor a comment, its first word is a `.c` file, the filter
/// word admits the target, and `path` is the file joined onto `wt_root`.
pub open spec fn names_file(
    line: Seq<char>,
    wt_root: Seq<char>,
    arch_filter: Seq<char>,
    os_filter: Seq<char>,
    is_posix: bool,
    path: Seq<char>,
) -> bool {
    let t = trim(line);
    let w = words(t);
    &&& t.len() > 0
    &&& t[0] != '#'
    &&& w.len() > 0
    &&& ends_with(w[0], ".c"@)
    &&& include_file(filter_word(w), arch_filter, os_filter, is_posix)
    &&& path == path_join(wt_root, w[0])
}

proof fn lemma_entry_names_file(
    line: Seq<char>,
    wt_root: Seq<char>,
    arch_filter: Seq<char>,
    os_filter: Seq<char>,
    is_posix: bool,
)
    ensures
        filelist_entry(line, wt_root, arch_filter, os_filter, is_posix) matches Some(path)
            ==> names_file(line, wt_root, arch_filter, os_filter, is_posix, path),
        forall|path: Seq<char>|
            #[trigger] names_file(line, wt_root, arch_filter, os_filter, is_posix, path)
                ==> filelist_entry(line, wt_root, arch_filter, os_filter, is_posix) == Some(path),
{
}

/// Every file that the source list gives for a target is named for that
/// target by one of its lines, with the caller's filters and POSIX-ness.
pub proof fn lemma_filelist_sound(
    ls: Seq<Seq<char>>,
    wt_root: Seq<char>,
    arch_filter: Seq<char>,
    os_filter: Seq<char>,
    is_posix: bool,
)
    ensures
        forall|path: Seq<char>|
            #[trigger] filelist_entries(ls, wt_root, arch_filter, os_filter, is_posix).contains(path)
                ==> exists|i: int|
                0 <= i < ls.len() && #[trigger] names_file(
                    ls[i],
                    wt_root,
                    arch_filter,
                    os_filter,
                    is_posix,
                    path,
                ),
    decreases ls.len(),
{
    if ls.len() > 0 {
        let prev = ls.drop_last();
        lemma_filelist_sound(prev, wt_root, arch_filter, os_filter, is_posix);
        lemma_entry_names_file(ls.last(), wt_root, arch_filter, os_filter, is_posix);
        let rest = filelist_entries(prev, wt_root, arch_filter, os_filter, is_posix);
        let all = filelist_entries(ls, wt_root, arch_filter, os_filter, is_posix);
        assert forall|path: Seq<char>| #[trigger] all.contains(path) implies exists|i: int|
            0 <= i < ls.len() && #[trigger] names_file(
                ls[i],
                wt_root,
                arch_filter,
                os_filter,
                is_posix,
                path,
            ) by {
            let k = choose|k: int| 0 <= k < all.len() && all[k] == path;
            if k < rest.len() {
                assert(all[k] == rest[k]);
                assert(rest.contains(path));
                let i = choose|i: int|
                    0 <= i < prev.len() && #[trigger] names_file(
                        prev[i],
                        wt_root,
                        arch_filter,
                        os_filter,
                        is_posix,
                        path,
                    );
                assert(prev[i] == ls[i]);
                assert(names_file(ls[i], wt_root, arch_filter, os_filter, is_posix, path));
            } else {
                let i = ls.len() - 1;
                assert(ls[i] == ls.last());
                assert(names_file(ls[i], wt_root, arch_filter, os_filter, is_posix, path));
            }
        }
    }
}

/// Every file that a line of the source list names for a target is among
/// the files given for it.
pub proof fn lemma_filelist_complete(
    ls: Seq<Seq<char>>,
    wt_root: Seq<char>,
    arch_filter: Seq<char>,
    os_filter: Seq<char>,
    is_posix: bool,
)
    ensures
        forall|i: int, path: Seq<char>|
            0 <= i < ls.len() && #[trigger] names_file(
                ls[i],
                wt_root,
                arch_filter,
                os_filter,
                is_posix,
                path,
            ) ==> filelist_entries(ls, wt_root, arch_filter, os_filter, is_posix).contains(path),
    decreases ls.len(),
{
    if ls.len() > 0 {
        let prev = ls.drop_last();
        lemma_filelist_complete(prev, wt_root, arch_filter, os_filter, is_posix);
        lemma_entry_names_file(ls.last(), wt_root, arch_filter, os_filter, is_posix);
        let rest = filelist_entries(prev, wt_root, arch_filter, os_filter, is_posix);
        let all = filelist_entries(ls, wt_root, arch_filter, os_filter, is_posix);
        assert forall|i: int, path: Seq<char>|
            0 <= i < ls.len() && #[trigger] names_file(
                ls[i],
                wt_root,
                arch_filter,
                os_filter,
                is_posix,
                path,
            ) implies all.contains(path) by {
            if i < prev.len() {
                assert(prev[i] == ls[i]);
                assert(names_file(prev[i], wt_root, arch_filter, os_filter, is_posix, path));
                let j = choose|j: int| 0 <= j < rest.len() && rest[j] == path;
                assert(all[j] == rest[j]);
            } else {
                assert(ls[i] == ls.last());
                assert(all[all.len() - 1] == path);
            }
        }
    }
}

/// On a target that is not POSIX-compatible, no file comes from a line
/// whose filter is `POSIX_HOST`: every file given is named by a line whose
/// filter is some other one.
pub proof fn lemma_filelist_no_posix_sources_off_posix(
    ls: Seq<Seq<char>>,
    wt_root: Seq<char>,
    arch_filter: Seq<char>,
    os_filter: Seq<char>,
)
    ensures
        forall|path: Seq<char>|
            #[trigger] filelist_entries(ls, wt_root, arch_filter, os_filter, false).contains(path)
                ==> exists|i: int|
                0 <= i < ls.len() && #[trigger] names_file(
                    ls[i],
                    wt_root,
                    arch_filter,
                    os_filter,
                    false,
                    path,
                ) && filter_word(words(trim(ls[i]))) != "POSIX_HOST"@,
{
    lemma_filelist_sound(ls, wt_root, arch_filter, os_filter, false);
    let all = filelist_entries(ls, wt_root, arch_filter, os_filter, false);
    assert forall|path: Seq<char>| #[trigger] all.contains(path) implies exists|i: int|
        0 <= i < ls.len() && #[trigger] names_file(
            ls[i],
            wt_root,
            arch_filter,
            os_filter,
            false,
            path,
        ) && filter_word(words(trim(ls[i]))) != "POSIX_HOST"@ by {
        let i = choose|i: int|
            0 <= i < ls.len() && #[trigger] names_file(
                ls[i],
                wt_root,
                arch_filter,
                os_filter,
                false,
                path,
            );
        lemma_include_file_rules(filter_word(words(trim(ls[i]))), arch_filter, os_filter, false);
    }
}


/// `q` has the form of a placeholder: `@`, a name without `@`, and `@`.
pub open spec fn placeholder_form(q: Seq<char>) -> bool {
    &&& q.len() >= 2
    &&& q[0] == '@'
    &&& q.last() == '@'
    &&& forall|i: int| 0 < i < q.len() - 1 ==> q[i] != '@'
}

/// Replacing one placeholder leaves another placeholder, followed by text
/// without `@`, as it is.
proof fn lemma_other_placeholder_kept(q: Seq<char>, b: Seq<char>, p: Seq<char>, r: Seq<char>)
    requires
        placeholder_form(q),
        placeholder_form(p),
        p != q,
        !b.contains('@'),
    ensures
        replace(q + b, p, r) == q + b,
{
    let s = q + b;
    let n = p.len() - 1;
    if starts_with(s, p) {
        assert(s.take(p.len() as int)[n] == p[n]);
        if n < q.len() - 1 {
            assert(s[n] == q[n]);
        } else if n == q.len() - 1 {
            assert(p =~= q) by {
                assert forall|k: int| 0 <= k < p.len() implies p[k] == q[k] by {
                    assert(s.take(p.len() as int)[k] == p[k]);
                    assert(s[k] == q[k]);
                }
            }
        } else {
            assert(s[n] == b[n - q.len()]);
        }
    }
    let inner = q.subrange(1, q.len() - 1);
    let t = seq!['@'] + b;
    assert(s.drop_first() =~= inner + t);
    assert forall|k: int| 0 <= k < inner.len() implies inner[k] != p[0] by {
        assert(inner[k] == q[k + 1]);
    }
    lemma_replace_prefix(inner, t, p, r);
    if starts_with(t, p) {
        assert(t.take(p.len() as int)[n] == p[n]);
        assert(t[n] == b[n - 1]);
    }
    assert(t.drop_first() =~= b);
    lemma_replace_without_first_char(b, p, r);
    assert(seq![s[0]] + (inner + (seq![t[0]] + b)) =~= s);
}

/// A replacement keeps a middle part that it does not touch.
proof fn lemma_step_kept(a: Seq<char>, x: Seq<char>, b: Seq<char>, p: Seq<char>, r: Seq<char>)
    requires
        p.len() > 0,
        !a.contains(p[0]),
        (placeholder_form(x) && placeholder_form(p) && x != p && !b.contains('@')) || (
        !x.contains(p[0]) && !b.contains(p[0])),
    ensures
        replace(a + x + b, p, r) == a + x + b,
{
    lemma_replace_around(a, x, b, p, r);
    if placeholder_form(x) && placeholder_form(p) && x != p && !b.contains('@') {
        lemma_other_placeholder_kept(x, b, p, r);
    } else {
        lemma_contains_concat(x, b, p[0]);
        lemma_replace_without_first_char(x + b, p, r);
    }
    assert(a + (x + b) =~= a + x + b);
}

/// A replacement puts `r` in place of the pattern between two parts that
/// lack its first character.
proof fn lemma_step_hit(a: Seq<char>, q: Seq<char>, b: Seq<char>, r: Seq<char>)
    requires
        q.len() > 0,
        !a.contains(q[0]),
        !b.contains(q[0]),
    ensures
        replace(a + q + b, q, r) == a + r + b,
{
    lemma_replace_around(a, q, b, q, r);
    let s = q + b;
    assert(s.take(q.len() as int) =~= q);
    assert(s.skip(q.len() as int) =~= b);
    lemma_replace_without_first_char(b, q, r);
    assert(a + (r + b) =~= a + r + b);
}

/// Facts about the placeholders and their replacement texts.
proof fn lemma_template_literals()
    ensures
        placeholder_form("@VERSION_MAJOR@"@),
        !"@VERSION_MAJOR@"@.contains('#'),
        !"@VERSION_MAJOR@"@.contains('0'),
        !"@VERSION_MAJOR@"@.contains('1'),
        "@VERSION_MAJOR@"@.len() == 15,
        placeholder_form("@VERSION_MINOR@"@),
        !"@VERSION_MINOR@"@.contains('#'),
        !"@VERSION_MINOR@"@.contains('0'),
        !"@VERSION_MINOR@"@.contains('1'),
        "@VERSION_MINOR@"@.len() == 15,
        placeholder_form("@VERSION_PATCH@"@),
        !"@VERSION_PATCH@"@.contains('#'),
        !"@VERSION_PATCH@"@.contains('0'),
        !"@VERSION_PATCH@"@.contains('1'),
        "@VERSION_PATCH@"@.len() == 15,
        placeholder_form("@VERSION_STRING@"@),
        !"@VERSION_STRING@"@.contains('#'),
        !"@VERSION_STRING@"@.contains('0'),
        !"@VERSION_STRING@"@.contains('1'),
        "@VERSION_STRING@"@.len() == 16,
        placeholder_form("@SPINLOCK_TYPE_CONFIG_VAR@"@),
        !"@SPINLOCK_TYPE_CONFIG_VAR@"@.contains('#'),
        !"@SPINLOCK_TYPE_CONFIG_VAR@"@.contains('0'),
        !"@SPINLOCK_TYPE_CONFIG_VAR@"@.contains('1'),
        "@SPINLOCK_TYPE_CONFIG_VAR@"@.len() == 26,
        !"12"@.contains('@'),
        "12"@.len() == 2,
        !"0"@.contains('@'),
        "0"@.len() == 1,
        !"\"WiredTiger 12.0.0 (Rust build)\""@.contains('@'),
        "\"WiredTiger 12.0.0 (Rust build)\""@.len() == 32,
        !"#if !defined(BINDGEN_FILTER)"@.contains('@'),
        "#if !defined(BINDGEN_FILTER)"@.len() == 28,
        !"SPINLOCK_MSVC"@.contains('@'),
        "SPINLOCK_MSVC"@.len() == 13,
        !"SPINLOCK_PTHREAD_MUTEX"@.contains('@'),
        "SPINLOCK_PTHREAD_MUTEX"@.len() == 22,
        !"12"@.contains('#'),
        !"0"@.contains('#'),
        !"\"WiredTiger 12.0.0 (Rust build)\""@.contains('#'),
        "12"@[0] == '1',
        "0"@[0] == '0',
        "#if !defined(SWIG) && !defined(DOXYGEN)"@[0] == '#',
        "#if !defined(SWIG) && !defined(DOXYGEN)"@.len() > 0,
        "#cmakedefine"@[0] == '#',
        "#cmakedefine"@.len() > 0,
        VERSION_MAJOR@ == "12"@,
        VERSION_MINOR@ == "0"@,
        VERSION_PATCH@ == "0"@,
        VERSION_STRING@ == "\"WiredTiger 12.0.0 (Rust build)\""@,
        "@VERSION_MAJOR@"@ != "@VERSION_MINOR@"@,
        "@VERSION_MAJOR@"@ != "@VERSION_PATCH@"@,
        "@VERSION_MAJOR@"@ != "@VERSION_STRING@"@,
        "@VERSION_MAJOR@"@ != "@SPINLOCK_TYPE_CONFIG_VAR@"@,
        "@VERSION_MINOR@"@ != "@VERSION_PATCH@"@,
        "@VERSION_MINOR@"@ != "@VERSION_STRING@"@,
        "@VERSION_MINOR@"@ != "@SPINLOCK_TYPE_CONFIG_VAR@"@,
        "@VERSION_PATCH@"@ != "@VERSION_STRING@"@,
        "@VERSION_PATCH@"@ != "@SPINLOCK_TYPE_CONFIG_VAR@"@,
        "@VERSION_STRING@"@ != "@SPINLOCK_TYPE_CONFIG_VAR@"@,
        !"@VERSION_MAJOR@"@.contains('P'),
        "SPINLOCK_MSVC"@[1] == 'P',
        !"@VERSION_MINOR@"@.contains('P'),
        "SPINLOCK_MSVC"@[1] == 'P',
        !"@VERSION_PATCH@"@.contains('L'),
        "SPINLOCK_MSVC"@[4] == 'L',
        !"@VERSION_STRING@"@.contains('P'),
        "SPINLOCK_MSVC"@[1] == 'P',
        !"@SPINLOCK_TYPE_CONFIG_VAR@"@.contains('M'),
        "SPINLOCK_MSVC"@[9] == 'M',
        !"@SPINLOCK_TYPE_CONFIG_VAR@"@.contains('H'),
        "SPINLOCK_PTHREAD_MUTEX"@[11] == 'H',
{
    broadcast use vstd::string::group_string_axioms;

    reveal_strlit("@VERSION_MAJOR@");
    reveal_strlit("@VERSION_MINOR@");
    reveal_strlit("@VERSION_PATCH@");
    reveal_strlit("@VERSION_STRING@");
    reveal_strlit("@SPINLOCK_TYPE_CONFIG_VAR@");
    reveal_strlit("12");
    reveal_strlit("0");
    reveal_strlit("\"WiredTiger 12.0.0 (Rust build)\"");
    reveal_strlit("#if !defined(BINDGEN_FILTER)");
    reveal_strlit("SPINLOCK_MSVC");
    reveal_strlit("SPINLOCK_PTHREAD_MUTEX");
    reveal_strlit("#if !defined(SWIG) && !defined(DOXYGEN)");
    reveal_strlit("#cmakedefine");
    assert("@VERSION_MAJOR@"@.len() == 15);
    assert("@VERSION_MINOR@"@.len() == 15);
    assert("@VERSION_PATCH@"@.len() == 15);
    assert("@VERSION_STRING@"@.len() == 16);
    assert("@SPINLOCK_TYPE_CONFIG_VAR@"@.len() == 26);
    assert("12"@.len() == 2);
    assert("0"@.len() == 1);
    assert("\"WiredTiger 12.0.0 (Rust build)\""@.len() == 32);
    assert("#if !defined(BINDGEN_FILTER)"@.len() == 28);
    assert("SPINLOCK_MSVC"@.len() == 13);
    assert("SPINLOCK_PTHREAD_MUTEX"@.len() == 22);
    assert("#if !defined(SWIG) && !defined(DOXYGEN)"@.len() == 39);
    assert("#cmakedefine"@.len() == 12);
    assert("@VERSION_MAJOR@"@[10] != "@VERSION_MINOR@"@[10]);
    assert("@VERSION_MAJOR@"@[9] != "@VERSION_PATCH@"@[9]);
    assert("@VERSION_MINOR@"@[9] != "@VERSION_PATCH@"@[9]);
    assert forall|i: int| 0 <= i < 15 implies "@VERSION_MAJOR@"@[i] != '#' && "@VERSION_MAJOR@"@[i] != '0' && "@VERSION_MAJOR@"@[i] != '1' by {
        if i == 0 {
        } else if i == 1 {
        } else if i == 2 {
        } else if i == 3 {
        } else if i == 4 {
        } else if i == 5 {
        } else if i == 6 {
        } else if i == 7 {
        } else if i == 8 {
        } else if i == 9 {
        } else if i == 10 {
        } else if i == 11 {
        } else if i == 12 {
        } else if i == 13 {
        } else if i == 14 {
        }
    }
    assert forall|i: int| 1 <= i < 14 implies "@VERSION_MAJOR@"@[i] != '@' by {
        if i == 1 {
        } else if i == 2 {
        } else if i == 3 {
        } else if i == 4 {
        } else if i == 5 {
        } else if i == 6 {
        } else if i == 7 {
        } else if i == 8 {
        } else if i == 9 {
        } else if i == 10 {
        } else if i == 11 {
        } else if i == 12 {
        } else if i == 13 {
        }
    }
    assert forall|i: int| 0 <= i < 15 implies "@VERSION_MINOR@"@[i] != '#' && "@VERSION_MINOR@"@[i] != '0' && "@VERSION_MINOR@"@[i] != '1' by {
        if i == 0 {
        } else if i == 1 {
        } else if i == 2 {
        } else if i == 3 {
        } else if i == 4 {
        } else if i == 5 {
        } else if i == 6 {
        } else if i == 7 {
        } else if i == 8 {
        } else if i == 9 {
        } else if i == 10 {
        } else if i == 11 {
        } else if i == 12 {
        } else if i == 13 {
        } else if i == 14 {
        }
    }
    assert forall|i: int| 1 <= i < 14 implies "@VERSION_MINOR@"@[i] != '@' by {
        if i == 1 {
        } else if i == 2 {
        } else if i == 3 {
        } else if i == 4 {
        } else if i == 5 {
        } else if i == 6 {
        } else if i == 7 {
        } else if i == 8 {
        } else if i == 9 {
        } else if i == 10 {
        } else if i == 11 {
        } else if i == 12 {
        } else if i == 13 {
        }
    }
    assert forall|i: int| 0 <= i < 15 implies "@VERSION_PATCH@"@[i] != '#' && "@VERSION_PATCH@"@[i] != '0' && "@VERSION_PATCH@"@[i] != '1' by {
        if i == 0 {
        } else if i == 1 {
        } else if i == 2 {
        } else if i == 3 {
        } else if i == 4 {
        } else if i == 5 {
        } else if i == 6 {
        } else if i == 7 {
        } else if i == 8 {
        } else if i == 9 {
        } else if i == 10 {
        } else if i == 11 {
        } else if i == 12 {
        } else if i == 13 {
        } else if i == 14 {
        }
    }
    assert forall|i: int| 1 <= i < 14 implies "@VERSION_PATCH@"@[i] != '@' by {
        if i == 1 {
        } else if i == 2 {
        } else if i == 3 {
        } else if i == 4 {
        } else if i == 5 {
        } else if i == 6 {
        } else if i == 7 {
        } else if i == 8 {
        } else if i == 9 {
        } else if i == 10 {
        } else if i == 11 {
        } else if i == 12 {
        } else if i == 13 {
        }
    }
    assert forall|i: int| 0 <= i < 16 implies "@VERSION_STRING@"@[i] != '#' && "@VERSION_STRING@"@[i] != '0' && "@VERSION_STRING@"@[i] != '1' by {
        if i == 0 {
        } else if i == 1 {
        } else if i == 2 {
        } else if i == 3 {
        } else if i == 4 {
        } else if i == 5 {
        } else if i == 6 {
        } else if i == 7 {
        } else if i == 8 {
        } else if i == 9 {
        } else if i == 10 {
        } else if i == 11 {
        } else if i == 12 {
        } else if i == 13 {
        } else if i == 14 {
        } else if i == 15 {
        }
    }
    assert forall|i: int| 1 <= i < 15 implies "@VERSION_STRING@"@[i] != '@' by {
        if i == 1 {
        } else if i == 2 {
        } else if i == 3 {
        } else if i == 4 {
        } else if i == 5 {
        } else if i == 6 {
        } else if i == 7 {
        } else if i == 8 {
        } else if i == 9 {
        } else if i == 10 {
        } else if i == 11 {
        } else if i == 12 {
        } else if i == 13 {
        } else if i == 14 {
        }
    }
    assert forall|i: int| 0 <= i < 26 implies "@SPINLOCK_TYPE_CONFIG_VAR@"@[i] != '#' && "@SPINLOCK_TYPE_CONFIG_VAR@"@[i] != '0' && "@SPINLOCK_TYPE_CONFIG_VAR@"@[i] != '1' by {
        if i == 0 {
        } else if i == 1 {
        } else if i == 2 {
        } else if i == 3 {
        } else if i == 4 {
        } else if i == 5 {
        } else if i == 6 {
        } else if i == 7 {
        } else if i == 8 {
        } else if i == 9 {
        } else if i == 10 {
        } else if i == 11 {
        } else if i == 12 {
        } else if i == 13 {
        } else if i == 14 {
        } else if i == 15 {
        } else if i == 16 {
        } else if i == 17 {
        } else if i == 18 {
        } else if i == 19 {
        } else if i == 20 {
        } else if i == 21 {
        } else if i == 22 {
        } else if i == 23 {
        } else if i == 24 {
        } else if i == 25 {
        }
    }
    assert forall|i: int| 1 <= i < 25 implies "@SPINLOCK_TYPE_CONFIG_VAR@"@[i] != '@' by {
        if i == 1 {
        } else if i == 2 {
        } else if i == 3 {
        } else if i == 4 {
        } else if i == 5 {
        } else if i == 6 {
        } else if i == 7 {
        } else if i == 8 {
        } else if i == 9 {
        } else if i == 10 {
        } else if i == 11 {
        } else if i == 12 {
        } else if i == 13 {
        } else if i == 14 {
        } else if i == 15 {
        } else if i == 16 {
        } else if i == 17 {
        } else if i == 18 {
        } else if i == 19 {
        } else if i == 20 {
        } else if i == 21 {
        } else if i == 22 {
        } else if i == 23 {
        } else if i == 24 {
        }
    }
    assert forall|i: int| 0 <= i < 15 implies "@VERSION_MAJOR@"@[i] != 'P' by {
        if i == 0 {
        } else if i == 1 {
        } else if i == 2 {
        } else if i == 3 {
        } else if i == 4 {
        } else if i == 5 {
        } else if i == 6 {
        } else if i == 7 {
        } else if i == 8 {
        } else if i == 9 {
        } else if i == 10 {
        } else if i == 11 {
        } else if i == 12 {
        } else if i == 13 {
        } else if i == 14 {
        }
    }
    assert forall|i: int| 0 <= i < 15 implies "@VERSION_MINOR@"@[i] != 'P' by {
        if i == 0 {
        } else if i == 1 {
        } else if i == 2 {
        } else if i == 3 {
        } else if i == 4 {
        } else if i == 5 {
        } else if i == 6 {
        } else if i == 7 {
        } else if i == 8 {
        } else if i == 9 {
        } else if i == 10 {
        } else if i == 11 {
        } else if i == 12 {
        } else if i == 13 {
        } else if i == 14 {
        }
    }
    assert forall|i: int| 0 <= i < 15 implies "@VERSION_PATCH@"@[i] != 'L' by {
        if i == 0 {
        } else if i == 1 {
        } else if i == 2 {
        } else if i == 3 {
        } else if i == 4 {
        } else if i == 5 {
        } else if i == 6 {
        } else if i == 7 {
        } else if i == 8 {
        } else if i == 9 {
        } else if i == 10 {
        } else if i == 11 {
        } else if i == 12 {
        } else if i == 13 {
        } else if i == 14 {
        }
    }
    assert forall|i: int| 0 <= i < 16 implies "@VERSION_STRING@"@[i] != 'P' by {
        if i == 0 {
        } else if i == 1 {
        } else if i == 2 {
        } else if i == 3 {
        } else if i == 4 {
        } else if i == 5 {
        } else if i == 6 {
        } else if i == 7 {
        } else if i == 8 {
        } else if i == 9 {
        } else if i == 10 {
        } else if i == 11 {
        } else if i == 12 {
        } else if i == 13 {
        } else if i == 14 {
        } else if i == 15 {
        }
    }
    assert forall|i: int| 0 <= i < 26 implies "@SPINLOCK_TYPE_CONFIG_VAR@"@[i] != 'H' && "@SPINLOCK_TYPE_CONFIG_VAR@"@[i] != 'M' by {
        if i == 0 {
        } else if i == 1 {
        } else if i == 2 {
        } else if i == 3 {
        } else if i == 4 {
        } else if i == 5 {
        } else if i == 6 {
        } else if i == 7 {
        } else if i == 8 {
        } else if i == 9 {
        } else if i == 10 {
        } else if i == 11 {
        } else if i == 12 {
        } else if i == 13 {
        } else if i == 14 {
        } else if i == 15 {
        } else if i == 16 {
        } else if i == 17 {
        } else if i == 18 {
        } else if i == 19 {
        } else if i == 20 {
        } else if i == 21 {
        } else if i == 22 {
        } else if i == 23 {
        } else if i == 24 {
        } else if i == 25 {
        }
    }
    assert forall|i: int| 0 <= i < 2 implies "12"@[i] != '@' && "12"@[i] != '#' by {
        if i == 0 {
        } else if i == 1 {
        }
    }
    assert forall|i: int| 0 <= i < 1 implies "0"@[i] != '@' && "0"@[i] != '#' by {
        if i == 0 {
        }
    }
    assert forall|i: int| 0 <= i < 32 implies "\"WiredTiger 12.0.0 (Rust build)\""@[i] != '@' && "\"WiredTiger 12.0.0 (Rust build)\""@[i] != '#' by {
        if i == 0 {
        } else if i == 1 {
        } else if i == 2 {
        } else if i == 3 {
        } else if i == 4 {
        } else if i == 5 {
        } else if i == 6 {
        } else if i == 7 {
        } else if i == 8 {
        } else if i == 9 {
        } else if i == 10 {
        } else if i == 11 {
        } else if i == 12 {
        } else if i == 13 {
        } else if i == 14 {
        } else if i == 15 {
        } else if i == 16 {
        } else if i == 17 {
        } else if i == 18 {
        } else if i == 19 {
        } else if i == 20 {
        } else if i == 21 {
        } else if i == 22 {
        } else if i == 23 {
        } else if i == 24 {
        } else if i == 25 {
        } else if i == 26 {
        } else if i == 27 {
        } else if i == 28 {
        } else if i == 29 {
        } else if i == 30 {
        } else if i == 31 {
        }
    }
    assert forall|i: int| 0 <= i < 28 implies "#if !defined(BINDGEN_FILTER)"@[i] != '@' by {
        if i == 0 {
        } else if i == 1 {
        } else if i == 2 {
        } else if i == 3 {
        } else if i == 4 {
        } else if i == 5 {
        } else if i == 6 {
        } else if i == 7 {
        } else if i == 8 {
        } else if i == 9 {
        } else if i == 10 {
        } else if i == 11 {
        } else if i == 12 {
        } else if i == 13 {
        } else if i == 14 {
        } else if i == 15 {
        } else if i == 16 {
        } else if i == 17 {
        } else if i == 18 {
        } else if i == 19 {
        } else if i == 20 {
        } else if i == 21 {
        } else if i == 22 {
        } else if i == 23 {
        } else if i == 24 {
        } else if i == 25 {
        } else if i == 26 {
        } else if i == 27 {
        }
    }
    assert forall|i: int| 0 <= i < 13 implies "SPINLOCK_MSVC"@[i] != '@' by {
        if i == 0 {
        } else if i == 1 {
        } else if i == 2 {
        } else if i == 3 {
        } else if i == 4 {
        } else if i == 5 {
        } else if i == 6 {
        } else if i == 7 {
        } else if i == 8 {
        } else if i == 9 {
        } else if i == 10 {
        } else if i == 11 {
        } else if i == 12 {
        }
    }
    assert forall|i: int| 0 <= i < 22 implies "SPINLOCK_PTHREAD_MUTEX"@[i] != '@' by {
        if i == 0 {
        } else if i == 1 {
        } else if i == 2 {
        } else if i == 3 {
        } else if i == 4 {
        } else if i == 5 {
        } else if i == 6 {
        } else if i == 7 {
        } else if i == 8 {
        } else if i == 9 {
        } else if i == 10 {
        } else if i == 11 {
        } else if i == 12 {
        } else if i == 13 {
        } else if i == 14 {
        } else if i == 15 {
        } else if i == 16 {
        } else if i == 17 {
        } else if i == 18 {
        } else if i == 19 {
        } else if i == 20 {
        } else if i == 21 {
        }
    }
}

/// The fixed replacement texts cannot form a placeholder.
proof fn lemma_fixed_replacements_safe()
    ensures
        !occurs("@VERSION_MAJOR@"@, "12"@),
        !occurs("@VERSION_MAJOR@"@, "0"@),
        !occurs("@VERSION_MAJOR@"@, "\"WiredTiger 12.0.0 (Rust build)\""@),
        !occurs("@VERSION_MAJOR@"@, "#if !defined(BINDGEN_FILTER)"@),
        !occurs("@VERSION_MINOR@"@, "12"@),
        !occurs("@VERSION_MINOR@"@, "0"@),
        !occurs("@VERSION_MINOR@"@, "\"WiredTiger 12.0.0 (Rust build)\""@),
        !occurs("@VERSION_MINOR@"@, "#if !defined(BINDGEN_FILTER)"@),
        !occurs("@VERSION_PATCH@"@, "12"@),
        !occurs("@VERSION_PATCH@"@, "0"@),
        !occurs("@VERSION_PATCH@"@, "\"WiredTiger 12.0.0 (Rust build)\""@),
        !occurs("@VERSION_PATCH@"@, "#if !defined(BINDGEN_FILTER)"@),
        !occurs("@VERSION_STRING@"@, "12"@),
        !occurs("@VERSION_STRING@"@, "0"@),
        !occurs("@VERSION_STRING@"@, "\"WiredTiger 12.0.0 (Rust build)\""@),
        !occurs("@VERSION_STRING@"@, "#if !defined(BINDGEN_FILTER)"@),
        !occurs("@SPINLOCK_TYPE_CONFIG_VAR@"@, "12"@),
        !occurs("@SPINLOCK_TYPE_CONFIG_VAR@"@, "0"@),
        !occurs("@SPINLOCK_TYPE_CONFIG_VAR@"@, "\"WiredTiger 12.0.0 (Rust build)\""@),
        !occurs("@SPINLOCK_TYPE_CONFIG_VAR@"@, "#if !defined(BINDGEN_FILTER)"@),
{
    lemma_template_literals();
    lemma_absent_char("@VERSION_MAJOR@"@, "12"@, 0);
    lemma_absent_char("@VERSION_MAJOR@"@, "0"@, 0);
    lemma_absent_longer("@VERSION_MAJOR@"@, "\"WiredTiger 12.0.0 (Rust build)\""@);
    lemma_absent_longer("@VERSION_MAJOR@"@, "#if !defined(BINDGEN_FILTER)"@);
    lemma_absent_char("@VERSION_MINOR@"@, "12"@, 0);
    lemma_absent_char("@VERSION_MINOR@"@, "0"@, 0);
    lemma_absent_longer("@VERSION_MINOR@"@, "\"WiredTiger 12.0.0 (Rust build)\""@);
    lemma_absent_longer("@VERSION_MINOR@"@, "#if !defined(BINDGEN_FILTER)"@);
    lemma_absent_char("@VERSION_PATCH@"@, "12"@, 0);
    lemma_absent_char("@VERSION_PATCH@"@, "0"@, 0);
    lemma_absent_longer("@VERSION_PATCH@"@, "\"WiredTiger 12.0.0 (Rust build)\""@);
    lemma_absent_longer("@VERSION_PATCH@"@, "#if !defined(BINDGEN_FILTER)"@);
    lemma_absent_char("@VERSION_STRING@"@, "12"@, 0);
    lemma_absent_char("@VERSION_STRING@"@, "0"@, 0);
    lemma_absent_longer("@VERSION_STRING@"@, "\"WiredTiger 12.0.0 (Rust build)\""@);
    lemma_absent_longer("@VERSION_STRING@"@, "#if !defined(BINDGEN_FILTER)"@);
    lemma_absent_char("@SPINLOCK_TYPE_CONFIG_VAR@"@, "12"@, 0);
    lemma_absent_char("@SPINLOCK_TYPE_CONFIG_VAR@"@, "0"@, 0);
    lemma_absent_longer("@SPINLOCK_TYPE_CONFIG_VAR@"@, "\"WiredTiger 12.0.0 (Rust build)\""@);
    lemma_absent_longer("@SPINLOCK_TYPE_CONFIG_VAR@"@, "#if !defined(BINDGEN_FILTER)"@);
}

/// The spinlock names cannot form a placeholder.
proof fn lemma_spinlock_replacement_safe(os: Seq<char>)
    ensures
        !occurs("@VERSION_MAJOR@"@, spinlock_type(os)),
        !spinlock_type(os).contains('@'),
        !occurs("@VERSION_MINOR@"@, spinlock_type(os)),
        !spinlock_type(os).contains('@'),
        !occurs("@VERSION_PATCH@"@, spinlock_type(os)),
        !spinlock_type(os).contains('@'),
        !occurs("@SPINLOCK_TYPE_CONFIG_VAR@"@, spinlock_type(os)),
        !spinlock_type(os).contains('@'),
{
    lemma_template_literals();
    if spinlock_type(os) == "SPINLOCK_MSVC"@ {
        lemma_absent_char("@VERSION_MAJOR@"@, "SPINLOCK_MSVC"@, 1);
        lemma_absent_char("@VERSION_MINOR@"@, "SPINLOCK_MSVC"@, 1);
        lemma_absent_char("@VERSION_PATCH@"@, "SPINLOCK_MSVC"@, 4);
        lemma_absent_char("@SPINLOCK_TYPE_CONFIG_VAR@"@, "SPINLOCK_MSVC"@, 9);
    } else {
        lemma_absent_longer("@VERSION_MAJOR@"@, "SPINLOCK_PTHREAD_MUTEX"@);
        lemma_absent_longer("@VERSION_MINOR@"@, "SPINLOCK_PTHREAD_MUTEX"@);
        lemma_absent_longer("@VERSION_PATCH@"@, "SPINLOCK_PTHREAD_MUTEX"@);
        lemma_absent_char("@SPINLOCK_TYPE_CONFIG_VAR@"@, "SPINLOCK_PTHREAD_MUTEX"@, 11);
    }
}

/// Whatever the template, the generated `wiredtiger.h` holds no version
/// placeholder: each is filled in, and no replacement text can form one.
pub proof fn lemma_wiredtiger_h_no_placeholder_left(template: Seq<char>)
    ensures
        !occurs(wiredtiger_h_text(template), "@VERSION_MAJOR@"@),
        !occurs(wiredtiger_h_text(template), "@VERSION_MINOR@"@),
        !occurs(wiredtiger_h_text(template), "@VERSION_PATCH@"@),
        !occurs(wiredtiger_h_text(template), "@VERSION_STRING@"@),
{
    lemma_template_literals();
    lemma_fixed_replacements_safe();
    let t0 = template;
    let t1 = replace(t0, "@VERSION_MAJOR@"@, "12"@);
    let t2 = replace(t1, "@VERSION_MINOR@"@, "0"@);
    let t3 = replace(t2, "@VERSION_PATCH@"@, "0"@);
    let t4 = replace(t3, "@VERSION_STRING@"@, "\"WiredTiger 12.0.0 (Rust build)\""@);
    let t5 = replace(t4, "#if !defined(SWIG) && !defined(DOXYGEN)"@, "#if !defined(BINDGEN_FILTER)"@);
    assert(wiredtiger_h_text(template) == t5);
    lemma_replace_keeps_absent(t0, "@VERSION_MAJOR@"@, "12"@, "@VERSION_MAJOR@"@);
    lemma_replace_keeps_absent(t1, "@VERSION_MINOR@"@, "0"@, "@VERSION_MAJOR@"@);
    lemma_replace_keeps_absent(t2, "@VERSION_PATCH@"@, "0"@, "@VERSION_MAJOR@"@);
    lemma_replace_keeps_absent(t3, "@VERSION_STRING@"@, "\"WiredTiger 12.0.0 (Rust build)\""@, "@VERSION_MAJOR@"@);
    lemma_replace_keeps_absent(t4, "#if !defined(SWIG) && !defined(DOXYGEN)"@, "#if !defined(BINDGEN_FILTER)"@, "@VERSION_MAJOR@"@);
    lemma_replace_keeps_absent(t1, "@VERSION_MINOR@"@, "0"@, "@VERSION_MINOR@"@);
    lemma_replace_keeps_absent(t2, "@VERSION_PATCH@"@, "0"@, "@VERSION_MINOR@"@);
    lemma_replace_keeps_absent(t3, "@VERSION_STRING@"@, "\"WiredTiger 12.0.0 (Rust build)\""@, "@VERSION_MINOR@"@);
    lemma_replace_keeps_absent(t4, "#if !defined(SWIG) && !defined(DOXYGEN)"@, "#if !defined(BINDGEN_FILTER)"@, "@VERSION_MINOR@"@);
    lemma_replace_keeps_absent(t2, "@VERSION_PATCH@"@, "0"@, "@VERSION_PATCH@"@);
    lemma_replace_keeps_absent(t3, "@VERSION_STRING@"@, "\"WiredTiger 12.0.0 (Rust build)\""@, "@VERSION_PATCH@"@);
    lemma_replace_keeps_absent(t4, "#if !defined(SWIG) && !defined(DOXYGEN)"@, "#if !defined(BINDGEN_FILTER)"@, "@VERSION_PATCH@"@);
    lemma_replace_keeps_absent(t3, "@VERSION_STRING@"@, "\"WiredTiger 12.0.0 (Rust build)\""@, "@VERSION_STRING@"@);
    lemma_replace_keeps_absent(t4, "#if !defined(SWIG) && !defined(DOXYGEN)"@, "#if !defined(BINDGEN_FILTER)"@, "@VERSION_STRING@"@);
}

/// Each version placeholder of a `wiredtiger.h` template line is filled in
/// with its value: between text without `@` and `#`, `@VERSION_MAJOR@`
/// becomes `12`, `@VERSION_MINOR@` and `@VERSION_PATCH@` become `0`, and
/// `@VERSION_STRING@` becomes the quoted version string.
pub proof fn lemma_wiredtiger_h_fills_placeholders(a: Seq<char>, b: Seq<char>)
    requires
        !a.contains('@'),
        !a.contains('#'),
        !b.contains('@'),
        !b.contains('#'),
    ensures
        wiredtiger_h_text(a + "@VERSION_MAJOR@"@ + b) == a + "12"@ + b,
        wiredtiger_h_text(a + "@VERSION_MINOR@"@ + b) == a + "0"@ + b,
        wiredtiger_h_text(a + "@VERSION_PATCH@"@ + b) == a + "0"@ + b,
        wiredtiger_h_text(a + "@VERSION_STRING@"@ + b) == a + "\"WiredTiger 12.0.0 (Rust build)\""@ + b,
{
    lemma_template_literals();
    {
        lemma_step_hit(a, "@VERSION_MAJOR@"@, b, "12"@);
        lemma_step_kept(a, "12"@, b, "@VERSION_MINOR@"@, "0"@);
        lemma_step_kept(a, "12"@, b, "@VERSION_PATCH@"@, "0"@);
        lemma_step_kept(a, "12"@, b, "@VERSION_STRING@"@, "\"WiredTiger 12.0.0 (Rust build)\""@);
        lemma_step_kept(a, "12"@, b, "#if !defined(SWIG) && !defined(DOXYGEN)"@, "#if !defined(BINDGEN_FILTER)"@);
    }
    {
        lemma_step_kept(a, "@VERSION_MINOR@"@, b, "@VERSION_MAJOR@"@, "12"@);
        lemma_step_hit(a, "@VERSION_MINOR@"@, b, "0"@);
        lemma_step_kept(a, "0"@, b, "@VERSION_PATCH@"@, "0"@);
        lemma_step_kept(a, "0"@, b, "@VERSION_STRING@"@, "\"WiredTiger 12.0.0 (Rust build)\""@);
        lemma_step_kept(a, "0"@, b, "#if !defined(SWIG) && !defined(DOXYGEN)"@, "#if !defined(BINDGEN_FILTER)"@);
    }
    {
        lemma_step_kept(a, "@VERSION_PATCH@"@, b, "@VERSION_MAJOR@"@, "12"@);
        lemma_step_kept(a, "@VERSION_PATCH@"@, b, "@VERSION_MINOR@"@, "0"@);
        lemma_step_hit(a, "@VERSION_PATCH@"@, b, "0"@);
        lemma_step_kept(a, "0"@, b, "@VERSION_STRING@"@, "\"WiredTiger 12.0.0 (Rust build)\""@);
        lemma_step_kept(a, "0"@, b, "#if !defined(SWIG) && !defined(DOXYGEN)"@, "#if !defined(BINDGEN_FILTER)"@);
    }
    {
        lemma_step_kept(a, "@VERSION_STRING@"@, b, "@VERSION_MAJOR@"@, "12"@);
        lemma_step_kept(a, "@VERSION_STRING@"@, b, "@VERSION_MINOR@"@, "0"@);
        lemma_step_kept(a, "@VERSION_STRING@"@, b, "@VERSION_PATCH@"@, "0"@);
        lemma_step_hit(a, "@VERSION_STRING@"@, b, "\"WiredTiger 12.0.0 (Rust build)\""@);
        lemma_step_kept(a, "\"WiredTiger 12.0.0 (Rust build)\""@, b, "#if !defined(SWIG) && !defined(DOXYGEN)"@, "#if !defined(BINDGEN_FILTER)"@);
    }
}

/// The `SWIG`/`DOXYGEN` guard of the template becomes the `BINDGEN_FILTER`
/// guard, and template text without `@` and `#` comes out unchanged.
pub proof fn lemma_wiredtiger_h_guard(a: Seq<char>, b: Seq<char>)
    requires
        !a.contains('@'),
        !a.contains('#'),
        !b.contains('@'),
        !b.contains('#'),
    ensures
        wiredtiger_h_text(a + "#if !defined(SWIG) && !defined(DOXYGEN)"@ + b) == a + "#if !defined(BINDGEN_FILTER)"@ + b,
        wiredtiger_h_text(a) == a,
{
    lemma_template_literals();
    broadcast use vstd::string::group_string_axioms;

    reveal_strlit("#if !defined(SWIG) && !defined(DOXYGEN)");
    reveal_strlit("#if !defined(BINDGEN_FILTER)");
    assert("#if !defined(SWIG) && !defined(DOXYGEN)"@.len() == 39);
    assert("#if !defined(BINDGEN_FILTER)"@.len() == 28);
    assert forall|i: int| 0 <= i < 39 implies "#if !defined(SWIG) && !defined(DOXYGEN)"@[i] != '@' by {
        if i == 0 {
        } else if i == 1 {
        } else if i == 2 {
        } else if i == 3 {
        } else if i == 4 {
        } else if i == 5 {
        } else if i == 6 {
        } else if i == 7 {
        } else if i == 8 {
        } else if i == 9 {
        } else if i == 10 {
        } else if i == 11 {
        } else if i == 12 {
        } else if i == 13 {
        } else if i == 14 {
        } else if i == 15 {
        } else if i == 16 {
        } else if i == 17 {
        } else if i == 18 {
        } else if i == 19 {
        } else if i == 20 {
        } else if i == 21 {
        } else if i == 22 {
        } else if i == 23 {
        } else if i == 24 {
        } else if i == 25 {
        } else if i == 26 {
        } else if i == 27 {
        } else if i == 28 {
        } else if i == 29 {
        } else if i == 30 {
        } else if i == 31 {
        } else if i == 32 {
        } else if i == 33 {
        } else if i == 34 {
        } else if i == 35 {
        } else if i == 36 {
        } else if i == 37 {
        } else if i == 38 {
        }
    }
    assert(!"#if !defined(SWIG) && !defined(DOXYGEN)"@.contains('@'));
    lemma_step_kept(a, "#if !defined(SWIG) && !defined(DOXYGEN)"@, b, "@VERSION_MAJOR@"@, "12"@);
    lemma_step_kept(a, "#if !defined(SWIG) && !defined(DOXYGEN)"@, b, "@VERSION_MINOR@"@, "0"@);
    lemma_step_kept(a, "#if !defined(SWIG) && !defined(DOXYGEN)"@, b, "@VERSION_PATCH@"@, "0"@);
    lemma_step_kept(a, "#if !defined(SWIG) && !defined(DOXYGEN)"@, b, "@VERSION_STRING@"@, "\"WiredTiger 12.0.0 (Rust build)\""@);
    lemma_step_hit(a, "#if !defined(SWIG) && !defined(DOXYGEN)"@, b, "#if !defined(BINDGEN_FILTER)"@);
    let e = Seq::<char>::empty();
    assert(a + e + e =~= a);
    lemma_step_kept(a, e, e, "@VERSION_MAJOR@"@, "12"@);
    lemma_step_kept(a, e, e, "@VERSION_MINOR@"@, "0"@);
    lemma_step_kept(a, e, e, "@VERSION_PATCH@"@, "0"@);
    lemma_step_kept(a, e, e, "@VERSION_STRING@"@, "\"WiredTiger 12.0.0 (Rust build)\""@);
    lemma_step_kept(a, e, e, "#if !defined(SWIG) && !defined(DOXYGEN)"@, "#if !defined(BINDGEN_FILTER)"@);
}

/// Whatever the line, a configuration template line other than a
/// `#cmakedefine` line comes out with no version or spinlock placeholder
/// for every target operating system.
pub proof fn lemma_config_line_no_placeholder_left(line: Seq<char>, features: Map<Seq<char>, bool>, os: Seq<char>)
    requires
        !starts_with(trim(line), "#cmakedefine"@),
    ensures
        !occurs(config_line(line, features, spinlock_type(os)), "@VERSION_MAJOR@"@),
        !occurs(config_line(line, features, spinlock_type(os)), "@VERSION_MINOR@"@),
        !occurs(config_line(line, features, spinlock_type(os)), "@VERSION_PATCH@"@),
        !occurs(config_line(line, features, spinlock_type(os)), "@SPINLOCK_TYPE_CONFIG_VAR@"@),
{
    lemma_template_literals();
    lemma_fixed_replacements_safe();
    lemma_spinlock_replacement_safe(os);
    let spinlock = spinlock_type(os);
    let t0 = line;
    let t1 = replace(t0, "@VERSION_MAJOR@"@, "12"@);
    let t2 = replace(t1, "@VERSION_MINOR@"@, "0"@);
    let t3 = replace(t2, "@VERSION_PATCH@"@, "0"@);
    let t4 = replace(t3, "@SPINLOCK_TYPE_CONFIG_VAR@"@, spinlock);
    assert(config_line(line, features, spinlock) == t4);
    lemma_replace_keeps_absent(t0, "@VERSION_MAJOR@"@, "12"@, "@VERSION_MAJOR@"@);
    lemma_replace_keeps_absent(t1, "@VERSION_MINOR@"@, "0"@, "@VERSION_MAJOR@"@);
    lemma_replace_keeps_absent(t2, "@VERSION_PATCH@"@, "0"@, "@VERSION_MAJOR@"@);
    lemma_replace_keeps_absent(t3, "@SPINLOCK_TYPE_CONFIG_VAR@"@, spinlock, "@VERSION_MAJOR@"@);
    lemma_replace_keeps_absent(t1, "@VERSION_MINOR@"@, "0"@, "@VERSION_MINOR@"@);
    lemma_replace_keeps_absent(t2, "@VERSION_PATCH@"@, "0"@, "@VERSION_MINOR@"@);
    lemma_replace_keeps_absent(t3, "@SPINLOCK_TYPE_CONFIG_VAR@"@, spinlock, "@VERSION_MINOR@"@);
    lemma_replace_keeps_absent(t2, "@VERSION_PATCH@"@, "0"@, "@VERSION_PATCH@"@);
    lemma_replace_keeps_absent(t3, "@SPINLOCK_TYPE_CONFIG_VAR@"@, spinlock, "@VERSION_PATCH@"@);
    lemma_replace_keeps_absent(t3, "@SPINLOCK_TYPE_CONFIG_VAR@"@, spinlock, "@SPINLOCK_TYPE_CONFIG_VAR@"@);
}

/// Each placeholder of a configuration template line is filled in with its
/// value: between text without `@` and `#`, `@VERSION_MAJOR@` becomes `12`,
/// `@VERSION_MINOR@` and `@VERSION_PATCH@` become `0`, and
/// `@SPINLOCK_TYPE_CONFIG_VAR@` becomes the spinlock type.
pub proof fn lemma_config_line_fills_placeholders(
    a: Seq<char>,
    b: Seq<char>,
    features: Map<Seq<char>, bool>,
    spinlock: Seq<char>,
)
    requires
        !a.contains('@'),
        !a.contains('#'),
        !b.contains('@'),
        !b.contains('#'),
        !spinlock.contains('@'),
    ensures
        config_line(a + "@VERSION_MAJOR@"@ + b, features, spinlock) == a + "12"@ + b,
        config_line(a + "@VERSION_MINOR@"@ + b, features, spinlock) == a + "0"@ + b,
        config_line(a + "@VERSION_PATCH@"@ + b, features, spinlock) == a + "0"@ + b,
        config_line(a + "@SPINLOCK_TYPE_CONFIG_VAR@"@ + b, features, spinlock) == a + spinlock + b,
{
    lemma_template_literals();
    {
        let line = a + "@VERSION_MAJOR@"@ + b;
        lemma_contains_concat(a, "@VERSION_MAJOR@"@, '#');
        lemma_contains_concat(a + "@VERSION_MAJOR@"@, b, '#');
        lemma_trim_chars_of(line, '#');
        if starts_with(trim(line), "#cmakedefine"@) {
            assert(trim(line).take("#cmakedefine"@.len() as int)[0] == '#');
            assert(trim(line)[0] == '#');
        }
        lemma_step_hit(a, "@VERSION_MAJOR@"@, b, "12"@);
        lemma_step_kept(a, "12"@, b, "@VERSION_MINOR@"@, "0"@);
        lemma_step_kept(a, "12"@, b, "@VERSION_PATCH@"@, "0"@);
        lemma_step_kept(a, "12"@, b, "@SPINLOCK_TYPE_CONFIG_VAR@"@, spinlock);
    }
    {
        let line = a + "@VERSION_MINOR@"@ + b;
        lemma_contains_concat(a, "@VERSION_MINOR@"@, '#');
        lemma_contains_concat(a + "@VERSION_MINOR@"@, b, '#');
        lemma_trim_chars_of(line, '#');
        if starts_with(trim(line), "#cmakedefine"@) {
            assert(trim(line).take("#cmakedefine"@.len() as int)[0] == '#');
            assert(trim(line)[0] == '#');
        }
        lemma_step_kept(a, "@VERSION_MINOR@"@, b, "@VERSION_MAJOR@"@, "12"@);
        lemma_step_hit(a, "@VERSION_MINOR@"@, b, "0"@);
        lemma_step_kept(a, "0"@, b, "@VERSION_PATCH@"@, "0"@);
        lemma_step_kept(a, "0"@, b, "@SPINLOCK_TYPE_CONFIG_VAR@"@, spinlock);
    }
    {
        let line = a + "@VERSION_PATCH@"@ + b;
        lemma_contains_concat(a, "@VERSION_PATCH@"@, '#');
        lemma_contains_concat(a + "@VERSION_PATCH@"@, b, '#');
        lemma_trim_chars_of(line, '#');
        if starts_with(trim(line), "#cmakedefine"@) {
            assert(trim(line).take("#cmakedefine"@.len() as int)[0] == '#');
            assert(trim(line)[0] == '#');
        }
        lemma_step_kept(a, "@VERSION_PATCH@"@, b, "@VERSION_MAJOR@"@, "12"@);
        lemma_step_kept(a, "@VERSION_PATCH@"@, b, "@VERSION_MINOR@"@, "0"@);
        lemma_step_hit(a, "@VERSION_PATCH@"@, b, "0"@);
        lemma_step_kept(a, "0"@, b, "@SPINLOCK_TYPE_CONFIG_VAR@"@, spinlock);
    }
    {
        let line = a + "@SPINLOCK_TYPE_CONFIG_VAR@"@ + b;
        lemma_contains_concat(a, "@SPINLOCK_TYPE_CONFIG_VAR@"@, '#');
        lemma_contains_concat(a + "@SPINLOCK_TYPE_CONFIG_VAR@"@, b, '#');
        lemma_trim_chars_of(line, '#');
        if starts_with(trim(line), "#cmakedefine"@) {
            assert(trim(line).take("#cmakedefine"@.len() as int)[0] == '#');
            assert(trim(line)[0] == '#');
        }
        lemma_step_kept(a, "@SPINLOCK_TYPE_CONFIG_VAR@"@, b, "@VERSION_MAJOR@"@, "12"@);
        lemma_step_kept(a, "@SPINLOCK_TYPE_CONFIG_VAR@"@, b, "@VERSION_MINOR@"@, "0"@);
        lemma_step_kept(a, "@SPINLOCK_TYPE_CONFIG_VAR@"@, b, "@VERSION_PATCH@"@, "0"@);
        lemma_step_hit(a, "@SPINLOCK_TYPE_CONFIG_VAR@"@, b, spinlock);
    }
}

} // verus!
