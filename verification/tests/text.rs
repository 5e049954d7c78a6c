use ququer_client::text::{join_path, parse_u64, trim_end_slashes, u64_to_decimal};

#[test]
fn decimal_formatting() {
    for n in [0u64, 7, 10, 42, 1000, 9999999999, u64::MAX] {
        assert_eq!(u64_to_decimal(n), n.to_string());
    }
}

#[test]
fn parsing_matches_std() {
    let cases = [
        "0", "12", "+12", "+", "", "-1", "-0", "1a", " 1", "007", "18446744073709551615",
        "18446744073709551616", "99999999999999999999999", "٣", "١٢",
    ];
    for s in cases {
        assert_eq!(parse_u64(s), s.parse::<u64>().ok(), "input {:?}", s);
    }
}

#[test]
fn parse_of_decimal_roundtrips() {
    for n in [0u64, 1, 9, 10, 123456789, u64::MAX] {
        assert_eq!(parse_u64(&u64_to_decimal(n)), Some(n));
    }
}

#[test]
fn path_joining() {
    assert_eq!(join_path("/a", "b"), "/a/b");
    assert_eq!(join_path("/a/", "b"), "/a/b");
    assert_eq!(join_path("", "b"), "b");
    assert_eq!(join_path("/", "b"), "/b");
}

#[test]
fn trailing_slashes_trimmed() {
    assert_eq!(trim_end_slashes("a//"), "a");
    assert_eq!(trim_end_slashes("///"), "");
    assert_eq!(trim_end_slashes("a/b"), "a/b");
}
