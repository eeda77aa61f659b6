use mobc_boltrs::manager::{BoltConnectionManager, HostAddress, HostIp};
use mobc_boltrs::metadata::{MetadataMap, MetadataValue};
use mobc_boltrs::policy::{V1_0, V2_0, V3_0, V4_0, V4_1};
use mobc_boltrs::session::{complete_connect, AuthPlan};
use mobc_boltrs::{Error, ServerResponse};

fn key(s: &str) -> String {
    s.to_owned()
}

fn full_metadata() -> MetadataMap {
    let mut md = MetadataMap::new();
    md.insert(key("user_agent"), MetadataValue::Str("bolt-client/X.Y.Z".to_owned()));
    md.insert(key("scheme"), MetadataValue::Str("basic".to_owned()));
    md.insert(key("principal"), MetadataValue::Str("username".to_owned()));
    md.insert(key("credentials"), MetadataValue::Str("password".to_owned()));
    md
}

fn manager_with(metadata: MetadataMap) -> BoltConnectionManager {
    let candidates = vec![HostAddress { ip: HostIp::V4([127, 0, 0, 1]), port: 7687 }];
    BoltConnectionManager::new(candidates, None, [V4_1, V4_0, V3_0, V2_0], metadata).unwrap()
}

#[test]
fn legacy_auth_extracts_user_agent() {
    let manager = manager_with(full_metadata());
    for &v in &[V1_0, V2_0] {
        match manager.plan_auth(v).unwrap() {
            AuthPlan::Legacy { user_agent, metadata } => {
                assert_eq!(user_agent, "bolt-client/X.Y.Z");
                assert!(metadata.get(&key("user_agent")).is_none());
                assert_eq!(
                    metadata.get(&key("scheme")),
                    Some(&MetadataValue::Str("basic".to_owned()))
                );
                assert_eq!(
                    metadata.get(&key("principal")),
                    Some(&MetadataValue::Str("username".to_owned()))
                );
                assert_eq!(
                    metadata.get(&key("credentials")),
                    Some(&MetadataValue::Str("password".to_owned()))
                );
            }
            other => panic!("expected a legacy plan, got {:?}", other),
        }
    }
}

#[test]
fn modern_auth_sends_whole_metadata() {
    let manager = manager_with(full_metadata());
    for &v in &[V3_0, V4_0, V4_1] {
        match manager.plan_auth(v).unwrap() {
            AuthPlan::Modern { metadata } => {
                assert_eq!(
                    metadata.get(&key("user_agent")),
                    Some(&MetadataValue::Str("bolt-client/X.Y.Z".to_owned()))
                );
                assert_eq!(
                    metadata.get(&key("credentials")),
                    Some(&MetadataValue::Str("password".to_owned()))
                );
                assert_eq!(metadata.pairs().len(), 4);
            }
            other => panic!("expected a modern plan, got {:?}", other),
        }
    }
}

#[test]
fn planning_leaves_the_stored_metadata_untouched() {
    let manager = manager_with(full_metadata());
    let _ = manager.plan_auth(V1_0).unwrap();
    let _ = manager.plan_auth(V2_0).unwrap();
    assert_eq!(
        manager.metadata().get(&key("user_agent")),
        Some(&MetadataValue::Str("bolt-client/X.Y.Z".to_owned()))
    );
    assert_eq!(manager.metadata().pairs().len(), 4);
}

#[test]
fn legacy_auth_without_user_agent_is_invalid_metadata() {
    let mut md = full_metadata();
    md.remove(&key("user_agent"));
    let manager = manager_with(md);
    for &v in &[V1_0, V2_0] {
        assert_eq!(
            manager.plan_auth(v),
            Err(Error::InvalidMetadata { metadata: "must contain a user_agent".to_owned() })
        );
    }
}

#[test]
fn legacy_auth_with_non_string_user_agent_is_invalid_metadata() {
    let mut md = full_metadata();
    md.insert(key("user_agent"), MetadataValue::Int(7));
    let manager = manager_with(md);
    assert_eq!(
        manager.plan_auth(V1_0),
        Err(Error::InvalidMetadata { metadata: "user_agent must be a string".to_owned() })
    );
}

#[test]
fn modern_auth_needs_no_user_agent() {
    let mut md = full_metadata();
    md.remove(&key("user_agent"));
    let manager = manager_with(md);
    for &v in &[V3_0, V4_0, V4_1] {
        assert!(matches!(manager.plan_auth(v), Ok(AuthPlan::Modern { .. })));
    }
}

#[test]
fn unsupported_version_rejected_before_auth() {
    let manager = manager_with(full_metadata());
    for &v in &[0, 5, 0x0204, 0xdead_beef] {
        assert_eq!(
            manager.plan_auth(v),
            Err(Error::InvalidClientVersion { version: v })
        );
    }
}

#[test]
fn positive_acknowledgement_yields_connection_on_each_version() {
    for &v in &[V1_0, V2_0, V3_0, V4_0, V4_1] {
        let conn = complete_connect(v, ServerResponse::Success).unwrap();
        assert_eq!(conn.version(), v);
    }
}

#[test]
fn non_positive_acknowledgement_fails_init() {
    for &v in &[V1_0, V2_0, V3_0, V4_0, V4_1] {
        for &reply in &[
            ServerResponse::Failure,
            ServerResponse::Ignored,
            ServerResponse::Record,
            ServerResponse::Other,
        ] {
            assert_eq!(
                complete_connect(v, reply),
                Err(Error::ClientInitFailed { message: reply })
            );
        }
    }
}
