use cargo_magisk::errors::ConfigError;
use cargo_magisk::errors::VersionPart;
use cargo_magisk::version_code::VersionCode;

fn digits_of(s: &str) -> Vec<u8> {
    VersionCode::try_from(s).unwrap().digits()
}

fn code_of(s: &str) -> u64 {
    let mut value: u64 = 0;
    for d in digits_of(s) {
        value = value * 10 + d as u64;
    }
    value
}

#[test]
fn version_code_from_str() {
    assert_eq!(digits_of("1.0.1"), vec![0, 1, 0, 0, 0, 1, 9, 0, 0]);
    assert_eq!(digits_of("1.0.1-alpha.1"), vec![0, 1, 0, 0, 0, 1, 1, 0, 1]);
    assert_eq!(digits_of("1.0.0"), vec![0, 1, 0, 0, 0, 0, 9, 0, 0]);
    assert_eq!(digits_of("1.0.0-alpha.1"), vec![0, 1, 0, 0, 0, 0, 1, 0, 1]);
    assert_eq!(digits_of("1.0.0-beta.1"), vec![0, 1, 0, 0, 0, 0, 2, 0, 1]);
    assert_eq!(digits_of("1.0.0-rc.1"), vec![0, 1, 0, 0, 0, 0, 3, 0, 1]);
    assert_eq!(digits_of("2.5.10"), vec![0, 2, 0, 5, 1, 0, 9, 0, 0]);
    assert_eq!(digits_of("2.5.10-beta.5"), vec![0, 2, 0, 5, 1, 0, 2, 0, 5]);
    assert_eq!(digits_of("99.99.99"), vec![9, 9, 9, 9, 9, 9, 9, 0, 0]);
    assert_eq!(digits_of("99.99.99-rc.99"), vec![9, 9, 9, 9, 9, 9, 3, 9, 9]);
    // a label without a number defaults the pre-release number to zero
    assert_eq!(digits_of("1.0.0-alpha"), vec![0, 1, 0, 0, 0, 0, 1, 0, 0]);
    // groups may be written zero-padded
    assert_eq!(digits_of("01.02.03"), vec![0, 1, 0, 2, 0, 3, 9, 0, 0]);
}

#[test]
fn version_code_from_str_err() {
    for s in [
        "999.999.999",
        "1.0",
        "1.0.0.1",
        "1.0.0-invalid.1",
        "a.b.c",
        "1.0.0-alpha.100",
        "100.0.0",
        "",
        "1.0.0-stable.1",
    ] {
        assert!(
            VersionCode::try_from(s).is_err(),
            "expected a parse failure for '{}'",
            s
        );
    }
}

#[test]
fn encode_as_integer() {
    assert_eq!(code_of("1.0.0"), 10000900);
    assert_eq!(code_of("1.0.0-alpha.1"), 10000101);
    assert_eq!(code_of("2.5.10-beta.5"), 20510205);
    assert_eq!(code_of("99.99.99-rc.99"), 999999399);
}

#[test]
fn encode_is_nine_digits() {
    for s in ["0.0.0", "1.2.3-alpha", "99.99.99-rc.99", "7.0.1-beta.42"] {
        let ds = digits_of(s);
        assert_eq!(ds.len(), 9);
        assert!(ds.iter().all(|d| *d < 10));
    }
}

#[test]
fn encode_orders_releases() {
    // increasing semantic-version order, strictly increasing codes
    let ordered = [
        "0.0.0",
        "0.0.1-alpha",
        "0.0.1-alpha.2",
        "0.0.1-beta.1",
        "0.0.1-rc.1",
        "0.0.1-rc.2",
        "0.0.1",
        "0.1.0-alpha.5",
        "0.1.0",
        "1.0.0-rc.99",
        "1.0.0",
        "1.0.1",
        "2.0.0-alpha",
        "99.99.99",
    ];
    for pair in ordered.windows(2) {
        assert!(
            code_of(pair[0]) < code_of(pair[1]),
            "expected code('{}') < code('{}')",
            pair[0],
            pair[1]
        );
    }
}

#[test]
fn version_error_names_the_part() {
    let part = |s: &str| match VersionCode::try_from(s) {
        Err(ConfigError::VersionFormat(p)) => p,
        other => panic!("expected a version format error, got {:?}", other),
    };
    assert_eq!(part(""), VersionPart::Major);
    assert_eq!(part("100.0.0"), VersionPart::Major);
    assert_eq!(part("1.x.0"), VersionPart::Minor);
    assert_eq!(part("1.0"), VersionPart::Minor);
    assert_eq!(part("1.0."), VersionPart::Patch);
    assert_eq!(part("1.0.0.1"), VersionPart::PreType);
    assert_eq!(part("1.0.0-stable.1"), VersionPart::PreType);
    assert_eq!(part("1.0.0-alpha.100"), VersionPart::PreCode);
    assert_eq!(part("1.0.0-rc."), VersionPart::PreCode);
}

#[test]
fn code_string_writes_the_digits() {
    let vc = VersionCode::try_from("2.5.10-beta.5").unwrap();
    assert_eq!(vc.code_string(), "020510205");
    let vc = VersionCode::try_from("1.0.0").unwrap();
    assert_eq!(vc.code_string(), "010000900");
}
