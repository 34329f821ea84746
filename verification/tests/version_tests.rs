use cargo_clone::errors::CloneError;
use cargo_clone::resolve::{select_latest, PackageSummary};
use cargo_clone::version::{parse_version, SemVer};

#[test]
fn parses_plain_version() {
    assert_eq!(
        parse_version("1.2.3"),
        Ok(SemVer { major: 1, minor: 2, patch: 3 })
    );
}

#[test]
fn parses_zero_version() {
    assert_eq!(
        parse_version("0.0.0"),
        Ok(SemVer { major: 0, minor: 0, patch: 0 })
    );
}

#[test]
fn parses_multi_digit_components() {
    assert_eq!(
        parse_version("10.200.3000"),
        Ok(SemVer { major: 10, minor: 200, patch: 3000 })
    );
}

#[test]
fn parses_largest_component() {
    assert_eq!(
        parse_version("18446744073709551615.0.0"),
        Ok(SemVer { major: u64::MAX, minor: 0, patch: 0 })
    );
}

#[test]
fn rejects_component_overflow() {
    assert_eq!(
        parse_version("18446744073709551616.0.0"),
        Err(CloneError::InvalidVersion)
    );
}

#[test]
fn rejects_empty_string() {
    assert_eq!(parse_version(""), Err(CloneError::InvalidVersion));
}

#[test]
fn rejects_two_components() {
    assert_eq!(parse_version("1.2"), Err(CloneError::InvalidVersion));
}

#[test]
fn rejects_four_components() {
    assert_eq!(parse_version("1.2.3.4"), Err(CloneError::InvalidVersion));
}

#[test]
fn rejects_letters() {
    assert_eq!(parse_version("a.b.c"), Err(CloneError::InvalidVersion));
}

#[test]
fn rejects_empty_components() {
    assert_eq!(parse_version("1..3"), Err(CloneError::InvalidVersion));
    assert_eq!(parse_version(".1.2"), Err(CloneError::InvalidVersion));
    assert_eq!(parse_version("1.2."), Err(CloneError::InvalidVersion));
}

#[test]
fn rejects_leading_zeros() {
    assert_eq!(parse_version("01.2.3"), Err(CloneError::InvalidVersion));
    assert_eq!(parse_version("1.02.3"), Err(CloneError::InvalidVersion));
    assert_eq!(parse_version("1.2.03"), Err(CloneError::InvalidVersion));
    assert_eq!(
        parse_version("0.10.0"),
        Ok(SemVer { major: 0, minor: 10, patch: 0 })
    );
}

#[test]
fn rejects_trailing_garbage() {
    assert_eq!(parse_version("1.2.3-beta"), Err(CloneError::InvalidVersion));
    assert_eq!(parse_version("1.2.x"), Err(CloneError::InvalidVersion));
}

#[test]
fn orders_versions_lexicographically() {
    let a = SemVer { major: 1, minor: 9, patch: 9 };
    let b = SemVer { major: 2, minor: 0, patch: 0 };
    let c = SemVer { major: 2, minor: 0, patch: 1 };
    assert!(a.lt(&b));
    assert!(b.lt(&c));
    assert!(a.lt(&c));
    assert!(!b.lt(&a));
    assert!(!a.lt(&a));
}

#[test]
fn selects_maximum_version() {
    let summaries = vec![
        PackageSummary {
            name: String::from("foo"),
            version: SemVer { major: 1, minor: 0, patch: 0 },
        },
        PackageSummary {
            name: String::from("foo"),
            version: SemVer { major: 1, minor: 2, patch: 0 },
        },
        PackageSummary {
            name: String::from("foo"),
            version: SemVer { major: 1, minor: 1, patch: 0 },
        },
    ];
    let idx = select_latest(&summaries).unwrap();
    assert_eq!(idx, 1);
    assert_eq!(
        summaries[idx].version,
        SemVer { major: 1, minor: 2, patch: 0 }
    );
}

#[test]
fn selects_nothing_from_empty_query() {
    let summaries: Vec<PackageSummary> = Vec::new();
    assert_eq!(select_latest(&summaries), None);
}

#[test]
fn first_of_equal_versions_wins() {
    let summaries = vec![
        PackageSummary {
            name: String::from("dup"),
            version: SemVer { major: 2, minor: 0, patch: 0 },
        },
        PackageSummary {
            name: String::from("dup"),
            version: SemVer { major: 2, minor: 0, patch: 0 },
        },
        PackageSummary {
            name: String::from("dup"),
            version: SemVer { major: 1, minor: 0, patch: 0 },
        },
    ];
    assert_eq!(select_latest(&summaries), Some(0));
}
