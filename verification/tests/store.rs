use push::record::{PushSubscriptionChanged, SubscriptionRecord};
use push::store::{is_listed, SubscriptionStore};

fn record(id: &str, scope: &str) -> SubscriptionRecord {
    SubscriptionRecord {
        channel_id: id.to_string(),
        scope: scope.to_string(),
        endpoint: format!("https://relay/{}", id),
        public_key: vec![4, 1],
        private_key: vec![5, 6],
        auth_secret: vec![1; 16],
        server_key: None,
    }
}

fn filled(ids: &[&str]) -> SubscriptionStore {
    let mut store = SubscriptionStore::new();
    for id in ids {
        store.insert(record(id, "s"));
    }
    store
}

fn texts(ids: &[&str]) -> Vec<String> {
    ids.iter().map(|id| id.to_string()).collect()
}

fn notice(id: &str, scope: &str) -> PushSubscriptionChanged {
    PushSubscriptionChanged { channel_id: id.to_string(), scope: scope.to_string() }
}

#[test]
fn store_starts_empty() {
    let store = SubscriptionStore::new();
    assert_eq!(store.len(), 0);
    assert!(store.list().is_empty());
    assert!(store.channel_ids().is_empty());
    assert!(!store.contains(&"a".to_string()));
    assert_eq!(store.get(&"a".to_string()), None);
}

#[test]
fn store_insert_adds_at_the_end() {
    let store = filled(&["b", "a", "c"]);
    assert_eq!(store.len(), 3);
    assert_eq!(store.channel_ids(), texts(&["b", "a", "c"]));
    assert_eq!(store.list(), vec![record("b", "s"), record("a", "s"), record("c", "s")]);
}

#[test]
fn store_insert_overwrites_in_place() {
    let mut store = filled(&["b", "a", "c"]);
    store.insert(record("a", "new"));
    assert_eq!(store.len(), 3);
    assert_eq!(store.list(), vec![record("b", "s"), record("a", "new"), record("c", "s")]);
    store.insert(record("a", "new"));
    assert_eq!(store.list(), vec![record("b", "s"), record("a", "new"), record("c", "s")]);
}

#[test]
fn store_get_finds_by_channel_id() {
    let store = filled(&["b", "a"]);
    assert_eq!(store.get(&"a".to_string()), Some(&record("a", "s")));
    assert_eq!(store.get(&"b".to_string()), Some(&record("b", "s")));
    assert_eq!(store.get(&"c".to_string()), None);
    assert_eq!(store.get(&String::new()), None);
    assert!(store.contains(&"a".to_string()));
    assert!(!store.contains(&"A".to_string()));
}

#[test]
fn store_delete_says_whether_there_was_a_record() {
    let mut store = filled(&["a", "b", "c"]);
    assert!(store.delete(&"b".to_string()));
    assert_eq!(store.channel_ids(), texts(&["a", "c"]));
    assert!(!store.delete(&"b".to_string()));
    assert_eq!(store.channel_ids(), texts(&["a", "c"]));
    assert!(store.delete(&"a".to_string()));
    assert!(store.delete(&"c".to_string()));
    assert_eq!(store.len(), 0);
    assert!(!store.delete(&"c".to_string()));
}

#[test]
fn store_delete_all_returns_the_removed_ids() {
    let mut store = filled(&["c", "a", "b"]);
    assert_eq!(store.delete_all(), texts(&["c", "a", "b"]));
    assert_eq!(store.len(), 0);
    assert!(store.delete_all().is_empty());
}

#[test]
fn store_lost_are_the_records_that_the_relay_lacks() {
    let store = filled(&["a", "b", "c", "d"]);
    assert_eq!(store.lost(&texts(&["d", "x", "b"])), vec![notice("a", "s"), notice("c", "s")]);
    assert_eq!(
        store.lost(&texts(&[])),
        vec![notice("a", "s"), notice("b", "s"), notice("c", "s"), notice("d", "s")]
    );
    assert!(store.lost(&texts(&["a", "b", "c", "d", "e"])).is_empty());
    assert!(filled(&[]).lost(&texts(&["a"])).is_empty());
}

#[test]
fn store_orphans_are_the_channels_without_record() {
    let store = filled(&["a", "b"]);
    assert_eq!(store.orphans(&texts(&["y", "b", "x", "a", "y"])), texts(&["y", "x", "y"]));
    assert!(store.orphans(&texts(&["a", "b"])).is_empty());
    assert!(store.orphans(&texts(&[])).is_empty());
    assert_eq!(filled(&[]).orphans(&texts(&["a"])), texts(&["a"]));
}

#[test]
fn store_delete_listed_keeps_the_rest_in_order() {
    let mut store = filled(&["a", "b", "c", "d"]);
    store.delete_listed(&texts(&["c", "zzz", "a"]));
    assert_eq!(store.channel_ids(), texts(&["b", "d"]));
    store.delete_listed(&texts(&[]));
    assert_eq!(store.channel_ids(), texts(&["b", "d"]));
    store.delete_listed(&texts(&["b", "d", "b"]));
    assert_eq!(store.len(), 0);
}

#[test]
fn store_changes_name_every_record() {
    let mut store = filled(&["a"]);
    store.insert(record("b", "other"));
    assert_eq!(store.changes(), vec![notice("a", "s"), notice("b", "other")]);
    assert!(filled(&[]).changes().is_empty());
}

#[test]
fn is_listed_finds_exact_ids() {
    let ids = texts(&["a", "bc", ""]);
    assert!(is_listed(&ids, &"a".to_string()));
    assert!(is_listed(&ids, &"bc".to_string()));
    assert!(is_listed(&ids, &String::new()));
    assert!(!is_listed(&ids, &"b".to_string()));
    assert!(!is_listed(&texts(&[]), &"a".to_string()));
}
