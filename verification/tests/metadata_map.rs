use mobc_boltrs::metadata::{MetadataMap, MetadataValue};

fn key(s: &str) -> String {
    s.to_owned()
}

#[test]
fn empty_map_has_no_keys() {
    let md = MetadataMap::new();
    assert!(md.get(&key("user_agent")).is_none());
    assert!(!md.contains_key(&key("scheme")));
}

#[test]
fn insert_then_get() {
    let mut md = MetadataMap::new();
    md.insert(key("scheme"), MetadataValue::Str("basic".to_owned()));
    md.insert(key("routing"), MetadataValue::Bool(false));
    md.insert(key("timeout"), MetadataValue::Int(30));
    assert_eq!(
        md.get(&key("scheme")),
        Some(&MetadataValue::Str("basic".to_owned()))
    );
    assert_eq!(md.get(&key("routing")), Some(&MetadataValue::Bool(false)));
    assert_eq!(md.get(&key("timeout")), Some(&MetadataValue::Int(30)));
    assert!(md.get(&key("principal")).is_none());
}

#[test]
fn insert_overrides_earlier_binding() {
    let mut md = MetadataMap::new();
    md.insert(key("scheme"), MetadataValue::Str("basic".to_owned()));
    md.insert(key("scheme"), MetadataValue::Str("kerberos".to_owned()));
    assert_eq!(
        md.get(&key("scheme")),
        Some(&MetadataValue::Str("kerberos".to_owned()))
    );
    assert_eq!(md.pairs().len(), 1);
}

#[test]
fn remove_hands_back_the_value() {
    let mut md = MetadataMap::new();
    md.insert(key("user_agent"), MetadataValue::Str("bolt-client/X.Y.Z".to_owned()));
    md.insert(key("scheme"), MetadataValue::Str("basic".to_owned()));
    let removed = md.remove(&key("user_agent"));
    assert_eq!(removed, Some(MetadataValue::Str("bolt-client/X.Y.Z".to_owned())));
    assert!(md.get(&key("user_agent")).is_none());
    assert_eq!(
        md.get(&key("scheme")),
        Some(&MetadataValue::Str("basic".to_owned()))
    );
}

#[test]
fn remove_of_absent_key_is_a_no_op() {
    let mut md = MetadataMap::new();
    md.insert(key("scheme"), MetadataValue::Str("basic".to_owned()));
    assert_eq!(md.remove(&key("credentials")), None);
    assert_eq!(
        md.get(&key("scheme")),
        Some(&MetadataValue::Str("basic".to_owned()))
    );
}

#[test]
fn duplicate_is_independent_of_the_original() {
    let mut original = MetadataMap::new();
    original.insert(key("user_agent"), MetadataValue::Str("bolt-client/X.Y.Z".to_owned()));
    original.insert(key("principal"), MetadataValue::Str("username".to_owned()));

    let mut copy = original.duplicate();
    let removed = copy.remove(&key("user_agent"));
    assert_eq!(removed, Some(MetadataValue::Str("bolt-client/X.Y.Z".to_owned())));

    assert_eq!(
        original.get(&key("user_agent")),
        Some(&MetadataValue::Str("bolt-client/X.Y.Z".to_owned()))
    );
    assert!(copy.get(&key("user_agent")).is_none());
    assert_eq!(
        copy.get(&key("principal")),
        Some(&MetadataValue::Str("username".to_owned()))
    );
}

#[test]
fn pairs_exposes_every_entry() {
    let mut md = MetadataMap::new();
    md.insert(key("scheme"), MetadataValue::Str("basic".to_owned()));
    md.insert(key("credentials"), MetadataValue::Str("password".to_owned()));
    let pairs = md.pairs();
    assert_eq!(pairs.len(), 2);
    assert!(pairs.iter().any(|(k, v)| k == "scheme"
        && *v == MetadataValue::Str("basic".to_owned())));
    assert!(pairs.iter().any(|(k, v)| k == "credentials"
        && *v == MetadataValue::Str("password".to_owned())));
}
