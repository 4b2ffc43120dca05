use wtrs::error::{
    check_error, Error, LOCAL_ERROR_CODE, WT_CACHE_FULL, WT_DUPLICATE_KEY, WT_NOTFOUND,
    WT_ROLLBACK,
};

#[test]
fn return_code_values() {
    assert_eq!(WT_ROLLBACK, -31800);
    assert_eq!(WT_DUPLICATE_KEY, -31801);
    assert_eq!(WT_NOTFOUND, -31803);
    assert_eq!(WT_CACHE_FULL, -31807);
    assert_eq!(LOCAL_ERROR_CODE, -1);
}

#[test]
fn check_error_success() {
    assert!(check_error(0, None).is_ok());
    assert!(check_error(0, Some("ignored")).is_ok());
}

#[test]
fn check_error_failure_keeps_code_and_description() {
    let e = check_error(WT_NOTFOUND, Some("WT_NOTFOUND: item not found")).unwrap_err();
    assert_eq!(e.code(), WT_NOTFOUND);
    assert_eq!(e.message(), "WT_NOTFOUND: item not found");
    assert!(e.is_not_found());
    assert!(!e.is_duplicate_key());
    assert!(!e.is_rollback());
}

#[test]
fn from_code_without_description() {
    let e = Error::from_code(-31803, None);
    assert_eq!(e.message(), "WiredTiger error code -31803");
    let e = Error::from_code(22, None);
    assert_eq!(e.message(), "WiredTiger error code 22");
    let e = Error::from_code(0, None);
    assert_eq!(e.message(), "WiredTiger error code 0");
    let e = Error::from_code(i32::MIN, None);
    assert_eq!(e.message(), "WiredTiger error code -2147483648");
    let e = Error::from_code(i32::MAX, None);
    assert_eq!(e.message(), "WiredTiger error code 2147483647");
}

#[test]
fn error_kinds() {
    assert!(Error::from_code(WT_DUPLICATE_KEY, None).is_duplicate_key());
    assert!(Error::from_code(WT_ROLLBACK, None).is_rollback());
    let e = Error::from_code(WT_CACHE_FULL, None);
    assert!(!e.is_not_found() && !e.is_duplicate_key() && !e.is_rollback());
}

#[test]
fn display_string() {
    let e = Error::from_code(WT_ROLLBACK, Some("WT_ROLLBACK: conflict between concurrent operations"));
    assert_eq!(
        e.to_display_string(),
        "WiredTiger error -31800: WT_ROLLBACK: conflict between concurrent operations"
    );
    let e = Error::local("Config contains null byte");
    assert_eq!(e.code(), -1);
    assert_eq!(e.to_display_string(), "WiredTiger error -1: Config contains null byte");
}

#[test]
fn new_error_fields() {
    let e = Error::new(7, "seven");
    assert_eq!(e.code(), 7);
    assert_eq!(e.message(), "seven");
    let c = e.clone();
    assert_eq!(c.code(), 7);
    assert_eq!(c.message(), "seven");
}
