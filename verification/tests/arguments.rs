use wtrs::args::{c_string, config_to_cstring, home_c_string, returned_null, unavailable, TextArg};

#[test]
fn c_string_appends_terminator() {
    assert_eq!(c_string("create", TextArg::Config).unwrap(), b"create\0".to_vec());
    assert_eq!(c_string("", TextArg::Name).unwrap(), vec![0u8]);
    assert_eq!(c_string("é", TextArg::Key).unwrap(), vec![0xc3, 0xa9, 0]);
}

#[test]
fn c_string_rejects_interior_nul() {
    let cases = [
        (TextArg::Config, "Config contains null byte"),
        (TextArg::Path, "Path contains null byte"),
        (TextArg::Name, "Name contains null byte"),
        (TextArg::Uri, "URI contains null byte"),
        (TextArg::Key, "Key contains null byte"),
        (TextArg::Value, "Value contains null byte"),
    ];
    for (what, message) in cases {
        let e = c_string("a\0b", what).unwrap_err();
        assert_eq!(e.code(), -1);
        assert_eq!(e.message(), message);
    }
}

#[test]
fn optional_config() {
    assert_eq!(config_to_cstring(None).unwrap(), None);
    assert_eq!(config_to_cstring(Some("cache_size=1M")).unwrap(), Some(b"cache_size=1M\0".to_vec()));
    let e = config_to_cstring(Some("\0")).unwrap_err();
    assert_eq!(e.message(), "Config contains null byte");
}

#[test]
fn home_paths() {
    assert_eq!(home_c_string(Some("WT_HOME")).unwrap(), b"WT_HOME\0".to_vec());
    assert_eq!(home_c_string(None).unwrap_err().message(), "Invalid UTF-8 in path");
    assert_eq!(home_c_string(Some("a\0")).unwrap_err().message(), "Path contains null byte");
}

#[test]
fn call_errors() {
    let e = unavailable("open_session");
    assert_eq!(e.code(), -1);
    assert_eq!(e.message(), "open_session function not available");
    assert_eq!(
        returned_null("wiredtiger_open", Some("connection")).message(),
        "wiredtiger_open returned null connection"
    );
    assert_eq!(returned_null("get_page_log", None).message(), "get_page_log returned null");
}
