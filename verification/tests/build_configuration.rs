use wtrs::build_config::{
    config_template_path, filelist_path, generate_config, generate_wiredtiger_h,
    get_arch_filter, get_enabled_features, is_known_filter, get_os_filter, get_spinlock_type, is_posix,
    parse_filelist, path_join_str, process_cmakedefine, should_include_file,
    wiredtiger_h_template_path, wiredtiger_root, FeatureMap, VERSION_MAJOR, VERSION_MINOR,
    VERSION_PATCH, VERSION_STRING,
};

fn table(entries: &[(&str, bool)]) -> FeatureMap {
    let mut m = FeatureMap::new();
    for (k, v) in entries {
        m.insert(k, *v);
    }
    m
}

#[test]
fn versions() {
    assert_eq!(VERSION_MAJOR, "12");
    assert_eq!(VERSION_MINOR, "0");
    assert_eq!(VERSION_PATCH, "0");
    assert_eq!(VERSION_STRING, "\"WiredTiger 12.0.0 (Rust build)\"");
}

#[test]
fn cmakedefine_enabled_and_disabled() {
    let f = table(&[("HAVE_LIBCXX", true), ("HAVE_RCPC", false), ("ON", true), ("OFF", false)]);
    assert_eq!(process_cmakedefine("#cmakedefine HAVE_LIBCXX 1", &f), "#define HAVE_LIBCXX 1");
    assert_eq!(process_cmakedefine("#cmakedefine HAVE_RCPC 0", &f), "/* #undef HAVE_RCPC */");
    assert_eq!(process_cmakedefine("#cmakedefine ON 0", &f), "#define ON 0");
    assert_eq!(process_cmakedefine("#cmakedefine OFF 1", &f), "/* #undef OFF */");
    assert_eq!(process_cmakedefine("#cmakedefine ON", &f), "#define ON");
    assert_eq!(process_cmakedefine("#cmakedefine OFF", &f), "/* #undef OFF */");
    assert_eq!(process_cmakedefine("#cmakedefine ON @VALUE@", &f), "#define ON @VALUE@");
    assert_eq!(process_cmakedefine("#cmakedefine OFF @VALUE@", &f), "/* #undef OFF */");
    assert_eq!(process_cmakedefine("#cmakedefine ON 42 extra", &f), "#define ON 42");
    assert_eq!(process_cmakedefine("#cmakedefine UNKNOWN 1", &f), "/* #undef UNKNOWN */");
}

#[test]
fn cmakedefine_without_symbol() {
    let f = FeatureMap::new();
    assert_eq!(process_cmakedefine("#cmakedefine", &f), "/* #cmakedefine */");
    assert_eq!(process_cmakedefine("", &f), "/*  */");
}

#[test]
fn feature_map_overrides() {
    let mut m = FeatureMap::new();
    assert_eq!(m.get("A"), None);
    m.insert("A", true);
    m.insert("B", false);
    assert_eq!(m.get("A"), Some(true));
    m.insert("A", false);
    assert_eq!(m.get("A"), Some(false));
    assert_eq!(m.get("B"), Some(false));
    assert_eq!(m.get("C"), None);
}

#[test]
fn platform_filters() {
    assert_eq!(get_arch_filter("x86_64"), "X86_HOST");
    assert_eq!(get_arch_filter("x86"), "X86_HOST");
    assert_eq!(get_arch_filter("aarch64"), "ARM64_HOST");
    assert_eq!(get_arch_filter("powerpc64"), "POWERPC_HOST");
    assert_eq!(get_arch_filter("riscv64"), "RISCV64_HOST");
    assert_eq!(get_arch_filter("loongarch64"), "LOONGARCH64_HOST");
    assert_eq!(get_arch_filter("s390x"), "ZSERIES_HOST");
    assert_eq!(get_arch_filter("mips"), "");
    assert_eq!(get_arch_filter(""), "");
    assert_eq!(get_os_filter("macos"), "DARWIN_HOST");
    assert_eq!(get_os_filter("android"), "LINUX_HOST");
    assert_eq!(get_os_filter("windows"), "WINDOWS_HOST");
    assert_eq!(get_os_filter("freebsd"), "");
    assert!(is_posix("linux"));
    assert!(is_posix("dragonfly"));
    assert!(!is_posix("windows"));
    assert!(!is_posix(""));
    assert_eq!(get_spinlock_type("linux"), "SPINLOCK_PTHREAD_MUTEX");
    assert_eq!(get_spinlock_type("windows"), "SPINLOCK_MSVC");
    assert_eq!(get_spinlock_type("freebsd"), "SPINLOCK_PTHREAD_MUTEX");
}

#[test]
fn include_rules() {
    assert!(should_include_file("", "X86_HOST", "LINUX_HOST", true));
    assert!(should_include_file("X86_HOST", "X86_HOST", "LINUX_HOST", true));
    assert!(!should_include_file("ARM64_HOST", "X86_HOST", "LINUX_HOST", true));
    assert!(should_include_file("LINUX_HOST", "X86_HOST", "LINUX_HOST", true));
    assert!(!should_include_file("WINDOWS_HOST", "X86_HOST", "LINUX_HOST", true));
    assert!(should_include_file("POSIX_HOST", "X86_HOST", "LINUX_HOST", true));
    assert!(!should_include_file("POSIX_HOST", "X86_HOST", "WINDOWS_HOST", false));
    assert!(!should_include_file("SOMETHING_ELSE", "X86_HOST", "LINUX_HOST", true));
}

#[test]
fn source_list() {
    let content = "# comment\n\
                   src/block/block_addr.c\n\
                   src/os_posix/os_abort.c POSIX_HOST\n\
                   src/os_win/os_abort.c WINDOWS_HOST\n\
                   src/checksum/x86/crc32-x86.c X86_HOST\n\
                   src/checksum/arm64/crc32-arm64.c ARM64_HOST\n\
                   src/support/x.S\n\
                   \n\
                   \u{20}  src/a.c   LINUX_HOST  \r\n\
                   src/b.c WEIRD\n";
    let files = parse_filelist(content, "/w", "X86_HOST", "LINUX_HOST", true);
    assert_eq!(
        files,
        vec![
            "/w/src/block/block_addr.c".to_string(),
            "/w/src/os_posix/os_abort.c".to_string(),
            "/w/src/checksum/x86/crc32-x86.c".to_string(),
            "/w/src/a.c".to_string(),
        ]
    );
    let none = parse_filelist("", "/w", "X86_HOST", "LINUX_HOST", true);
    assert!(none.is_empty());
}

#[test]
fn paths() {
    assert_eq!(wiredtiger_root("/crate"), "/crate/../vendor/wiredtiger");
    assert_eq!(wiredtiger_root("/crate/"), "/crate/../vendor/wiredtiger");
    assert_eq!(wiredtiger_root(""), "../vendor/wiredtiger");
    assert_eq!(filelist_path("/c"), "/c/../vendor/wiredtiger/dist/filelist");
    assert_eq!(
        config_template_path("/c"),
        "/c/../vendor/wiredtiger/cmake/configs/wiredtiger_config.h.in"
    );
    assert_eq!(
        wiredtiger_h_template_path("/c"),
        "/c/../vendor/wiredtiger/src/include/wiredtiger.h.in"
    );
    assert_eq!(path_join_str("/a", "/abs"), "/abs");
    assert_eq!(path_join_str("a", "b"), "a/b");
}

#[test]
fn enabled_features_by_platform() {
    let linux = get_enabled_features("linux", "x86_64");
    assert_eq!(linux.get("HAVE_FALLOCATE"), Some(true));
    assert_eq!(linux.get("HAVE_FDATASYNC"), Some(true));
    assert_eq!(linux.get("HAVE_X86INTRIN_H"), Some(true));
    assert_eq!(linux.get("HAVE_ARM_NEON_INTRIN_H"), Some(false));
    assert_eq!(linux.get("HAVE_LIBCXX"), Some(true));
    assert_eq!(linux.get("HAVE_RCPC"), Some(false));
    assert_eq!(linux.get("HAVE_DIAGNOSTIC"), Some(false));
    assert_eq!(linux.get("WT_STANDALONE_BUILD"), Some(true));
    assert_eq!(linux.get("SOMETHING"), None);

    let mac = get_enabled_features("macos", "aarch64");
    assert_eq!(mac.get("HAVE_FALLOCATE"), Some(false));
    assert_eq!(mac.get("HAVE_FDATASYNC"), Some(true));
    assert_eq!(mac.get("HAVE_LIBRT"), Some(false));
    assert_eq!(mac.get("HAVE_ARM_NEON_INTRIN_H"), Some(true));
    assert_eq!(mac.get("HAVE_X86INTRIN_H"), Some(false));

    let win = get_enabled_features("windows", "x86");
    assert_eq!(win.get("HAVE_FDATASYNC"), Some(false));
    assert_eq!(win.get("HAVE_LIBPTHREAD"), Some(false));
    assert_eq!(win.get("HAVE_X86INTRIN_H"), Some(true));
}

#[test]
fn config_header() {
    let template = "#define VERSION \"@VERSION_MAJOR@.@VERSION_MINOR@.@VERSION_PATCH@\"\n\
                    \u{20} #cmakedefine HAVE_LIBCXX 1\n\
                    #cmakedefine HAVE_RCPC 0\n\
                    #define SPINLOCK_TYPE @SPINLOCK_TYPE_CONFIG_VAR@\n";
    let features = get_enabled_features("linux", "x86_64");
    let out = generate_config(template, &features, get_spinlock_type("linux"));
    assert_eq!(
        out,
        "#define VERSION \"12.0.0\"\n\
         #define HAVE_LIBCXX 1\n\
         /* #undef HAVE_RCPC */\n\
         #define SPINLOCK_TYPE SPINLOCK_PTHREAD_MUTEX"
    );
    assert_eq!(generate_config("", &features, "X"), "");
}

#[test]
fn wiredtiger_header() {
    let template = "#define WIREDTIGER_VERSION_MAJOR @VERSION_MAJOR@\n\
                    #define WIREDTIGER_VERSION_STRING @VERSION_STRING@\n\
                    #if !defined(SWIG) && !defined(DOXYGEN)\n";
    assert_eq!(
        generate_wiredtiger_h(template),
        "#define WIREDTIGER_VERSION_MAJOR 12\n\
         #define WIREDTIGER_VERSION_STRING \"WiredTiger 12.0.0 (Rust build)\"\n\
         #if !defined(BINDGEN_FILTER)\n"
    );
}

#[test]
fn text_without_placeholders_is_copied() {
    let features = get_enabled_features("linux", "x86_64");
    assert_eq!(
        generate_config("#define PLAIN 1\n/* comment */", &features, "SPINLOCK_MSVC"),
        "#define PLAIN 1\n/* comment */"
    );
    assert_eq!(generate_wiredtiger_h("plain text\n#if X\n"), "plain text\n#if X\n");
}

#[test]
fn rcpc_is_undefined_on_every_platform() {
    for (os, arch) in [("linux", "aarch64"), ("macos", "aarch64"), ("linux", "x86_64"), ("", "")] {
        let features = get_enabled_features(os, arch);
        assert_eq!(process_cmakedefine("#cmakedefine HAVE_RCPC 0", &features), "/* #undef HAVE_RCPC */");
        assert_eq!(process_cmakedefine("#cmakedefine HAVE_RCPC", &features), "/* #undef HAVE_RCPC */");
    }
}

#[test]
fn known_filters() {
    assert!(is_known_filter(""));
    assert!(is_known_filter("POSIX_HOST"));
    assert!(is_known_filter("ZSERIES_HOST"));
    assert!(!is_known_filter("WEIRD"));
}
