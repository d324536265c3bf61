use upnp_ssdp::version::{parse_version, SpecVersion};

#[test]
fn versions_are_ordered() {
    let all = [SpecVersion::V10, SpecVersion::V11, SpecVersion::V20];
    for (i, a) in all.iter().enumerate() {
        for (j, b) in all.iter().enumerate() {
            assert_eq!(a.at_least(*b), i >= j);
            assert_eq!(a.precedes(*b), i < j);
        }
    }
    assert!(SpecVersion::V10.precedes(SpecVersion::V11));
    assert!(SpecVersion::V11.precedes(SpecVersion::V20));
}

#[test]
fn default_version_is_v10() {
    assert_eq!(SpecVersion::default(), SpecVersion::V10);
}

#[test]
fn version_numbers() {
    assert_eq!((SpecVersion::V10.major(), SpecVersion::V10.minor()), (1, 0));
    assert_eq!((SpecVersion::V11.major(), SpecVersion::V11.minor()), (1, 1));
    assert_eq!((SpecVersion::V20.major(), SpecVersion::V20.minor()), (2, 0));
}

#[test]
fn version_from_text() {
    assert_eq!(parse_version(Some("1.0")), SpecVersion::V10);
    assert_eq!(parse_version(Some("1.1")), SpecVersion::V11);
    assert_eq!(parse_version(Some("2.0")), SpecVersion::V20);
    assert_eq!(parse_version(Some("3.0")), SpecVersion::V10);
    assert_eq!(parse_version(Some("")), SpecVersion::V10);
    assert_eq!(parse_version(None), SpecVersion::V10);
}
