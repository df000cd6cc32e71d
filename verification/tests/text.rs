use mongo_browser::text::{decimal_string, index_string, kibibyte_string, kibibytes};

#[test]
fn kibibytes_truncate_toward_zero() {
    assert_eq!(kibibytes(2048), 2);
    assert_eq!(kibibytes(1536), 1);
    assert_eq!(kibibytes(1023), 0);
    assert_eq!(kibibytes(-1), 0);
    assert_eq!(kibibytes(-1536), -1);
}

#[test]
fn storage_size_renders_in_kilobytes() {
    assert_eq!(kibibyte_string(2048), "2 KB");
    assert_eq!(kibibyte_string(1536), "1 KB");
    assert_eq!(kibibyte_string(0), "0 KB");
}

#[test]
fn decimal_string_matches_std() {
    for n in [0i64, 7, 10, 42, 1000, -1, -10, -987654321, i64::MAX, i64::MIN] {
        assert_eq!(decimal_string(n), format!("{}", n));
    }
}

#[test]
fn index_string_matches_std() {
    for i in [0usize, 1, 9, 10, 11, 99, 100, 12345] {
        assert_eq!(index_string(i), format!("{}", i));
    }
}
