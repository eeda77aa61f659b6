use mobc_boltrs::manager::{BoltConnectionManager, HostAddress, HostIp};
use mobc_boltrs::metadata::{MetadataMap, MetadataValue};
use mobc_boltrs::policy::{V2_0, V3_0, V4_0, V4_1};
use mobc_boltrs::Error;

fn sample_metadata() -> MetadataMap {
    let mut md = MetadataMap::new();
    md.insert("user_agent".to_owned(), MetadataValue::Str("bolt-client/X.Y.Z".to_owned()));
    md
}

#[test]
fn zero_resolution_candidates_is_invalid_address() {
    let r = BoltConnectionManager::new(
        Vec::new(),
        None,
        [V4_1, V4_0, V3_0, V2_0],
        sample_metadata(),
    );
    assert!(matches!(r, Err(Error::InvalidAddress)));
}

#[test]
fn first_resolution_candidate_wins() {
    let first = HostAddress { ip: HostIp::V4([10, 0, 0, 1]), port: 7687 };
    let second = HostAddress { ip: HostIp::V4([10, 0, 0, 2]), port: 7688 };
    let m = BoltConnectionManager::new(
        vec![first, second],
        None,
        [V4_1, V4_0, V3_0, V2_0],
        sample_metadata(),
    )
    .unwrap();
    assert_eq!(m.addr(), first);
}

#[test]
fn configuration_is_stored_as_given() {
    let addr = HostAddress {
        ip: HostIp::V6([0, 0, 0, 0, 0, 0, 0, 0, 0, 0, 0, 0, 0, 0, 0, 1]),
        port: 7687,
    };
    let m = BoltConnectionManager::new(
        vec![addr],
        Some("db.example.com".to_owned()),
        [V4_1, 0, 0, 0],
        sample_metadata(),
    )
    .unwrap();
    assert_eq!(m.addr(), addr);
    assert_eq!(m.domain(), &Some("db.example.com".to_owned()));
    assert_eq!(m.preferred_versions(), [V4_1, 0, 0, 0]);
    assert_eq!(
        m.metadata().get(&"user_agent".to_owned()),
        Some(&MetadataValue::Str("bolt-client/X.Y.Z".to_owned()))
    );
}
