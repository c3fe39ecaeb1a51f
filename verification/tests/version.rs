use bytes::BytesMut;
use neo4rs_bolt::{Error, Version};

#[test]
fn parses_the_versions_it_speaks() {
    assert_eq!(Version::parse([0, 0, 4, 4]).unwrap(), Version::V4_4);
    assert_eq!(Version::parse([0, 0, 3, 4]).unwrap(), Version::V4_3);
    assert_eq!(Version::parse([0, 0, 1, 4]).unwrap(), Version::V4_1);
    assert_eq!(Version::parse([0, 0, 0, 4]).unwrap(), Version::V4);
}

#[test]
fn refuses_other_versions() {
    assert!(matches!(Version::parse([0, 0, 2, 5]), Err(Error::UnsupportedVersion(5, 2))));
    assert!(matches!(Version::parse([0x48, 0x54, 0x54, 0x50]), Err(Error::ProtocolMismatch(0x4854_5450))));
}

#[test]
fn offers_the_versions_in_order() {
    let mut bytes = BytesMut::new();
    Version::add_supported_versions(&mut bytes);
    assert_eq!(
        &bytes[..],
        &[0, 0, 4, 4, 0, 0, 3, 4, 0, 0, 1, 4, 0, 0, 0, 4, 0, 0, 0, 0, 0, 0, 0, 0]
    );
}
