use nebulon::error::RuntimeError;
use nebulon::text::{concat_str, decimal, is_component, join_path, same_text, signed_decimal};

#[test]
fn decimal_text_of_numbers() {
    assert_eq!(decimal(0), "0");
    assert_eq!(decimal(7), "7");
    assert_eq!(decimal(10), "10");
    assert_eq!(decimal(536870912), "536870912");
    assert_eq!(decimal(u64::MAX), u64::MAX.to_string());
    assert_eq!(signed_decimal(-15), "-15");
    assert_eq!(signed_decimal(i64::MIN), i64::MIN.to_string());
}

#[test]
fn join_path_adds_one_separator() {
    assert_eq!(join_path("/var/lib/nebulon/", "volumes"), "/var/lib/nebulon/volumes");
    assert_eq!(join_path("/var/lib", "nebulon"), "/var/lib/nebulon");
    assert_eq!(join_path("", "x"), "x");
}

#[test]
fn text_helpers() {
    assert_eq!(concat_str("nb", "-"), "nb-");
    assert!(same_text("aufs", "aufs"));
    assert!(!same_text("aufs", "auf"));
    assert!(is_component("abc-1"));
    assert!(!is_component("a/b"));
    assert!(!is_component(""));
}

#[test]
fn exit_statuses_are_distinct_and_nonzero() {
    let all = [
        RuntimeError::ForkError,
        RuntimeError::NamespaceError,
        RuntimeError::PrivilegeError,
        RuntimeError::CgroupError,
        RuntimeError::FilesystemError,
        RuntimeError::NotRunningError,
        RuntimeError::NotFoundError,
        RuntimeError::UnsupportedError,
        RuntimeError::AlreadyExistsError,
    ];
    for (i, a) in all.iter().enumerate() {
        assert_ne!(a.exit_status(), 0);
        for b in all.iter().skip(i + 1) {
            assert_ne!(a.exit_status(), b.exit_status());
        }
    }
}
