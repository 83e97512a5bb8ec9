use push::error::{FailureClass, PushError};
use push::manager::{PushManager, StoredState};
use push::protocol::{Action, Change, Event, KeyMaterial, Outcome, Scheme};
use push::record::{
    ConnectionIdentity, DispatchInfo, PushSubscriptionChanged, SubscriptionRecord,
};

/// A relay, a record store and a key generator that answer from memory.
struct World {
    registrations: usize,
    created: usize,
    persisted: Vec<Change>,
    decrypted: usize,
    next_id: u32,
    /// The channel ids that the relay holds.
    remote: Vec<String>,
    /// The orphans that the relay was asked to delete.
    orphans: Vec<String>,
    /// The status with which every relay call fails, if any.
    relay_down: Option<Option<u16>>,
    storage_down: bool,
    crypto_down: bool,
    auth_len: usize,
}

fn world() -> World {
    World {
        registrations: 0,
        created: 0,
        persisted: Vec::new(),
        decrypted: 0,
        next_id: 0,
        remote: Vec::new(),
        orphans: Vec::new(),
        relay_down: None,
        storage_down: false,
        crypto_down: false,
        auth_len: 16,
    }
}

fn relay(w: &World, ok: Event) -> Event {
    match w.relay_down {
        Some(status) => Event::RelayFailed { status },
        None => ok,
    }
}

fn answer(w: &mut World, action: &Action) -> Event {
    match action {
        Action::Register { .. } => {
            if w.relay_down.is_none() {
                w.registrations += 1;
            }
            relay(w, Event::Registered { connection_id: format!("uaid-{}", w.registrations) })
        }
        Action::GenerateChannelId => {
            w.next_id += 1;
            Event::ChannelId(format!("chid-{}", w.next_id))
        }
        Action::GenerateKeys => {
            if w.crypto_down {
                Event::CryptoFailed
            } else {
                Event::Keys(KeyMaterial {
                    public_key: vec![4, 1, 2, 3],
                    private_key: vec![9, 8, 7],
                    auth_secret: vec![7; w.auth_len],
                })
            }
        }
        Action::CreateChannel { channel_id, .. } => {
            if w.relay_down.is_none() {
                w.created += 1;
                w.remote.push(channel_id.clone());
            }
            relay(w, Event::ChannelCreated { endpoint: format!("https://relay/{}", channel_id) })
        }
        Action::DeleteChannel { channel_id, .. } => {
            if w.relay_down.is_none() {
                w.remote.retain(|c| c != channel_id);
            }
            relay(w, Event::RelayOk)
        }
        Action::DeleteAllChannels { .. } => {
            if w.relay_down.is_none() {
                w.remote.clear();
            }
            relay(w, Event::RelayOk)
        }
        Action::DeleteOrphans { channel_ids, .. } => {
            w.orphans = channel_ids.clone();
            relay(w, Event::RelayOk)
        }
        Action::UpdateToken { .. } => relay(w, Event::RelayOk),
        Action::ListChannels { .. } => relay(w, Event::Channels(w.remote.clone())),
        Action::Persist(change) => {
            if w.storage_down {
                Event::StorageFailed
            } else {
                w.persisted.push(change.clone());
                Event::Stored
            }
        }
        Action::Decrypt { body, .. } => {
            w.decrypted += 1;
            if w.crypto_down {
                Event::CryptoFailed
            } else {
                Event::Plaintext(body.bytes().rev().collect())
            }
        }
        Action::Finished(_) => unreachable!(),
    }
}

fn run(m: &mut PushManager, w: &mut World, first: Action) -> Outcome {
    let mut action = first;
    loop {
        if let Action::Finished(outcome) = action {
            assert!(m.is_idle());
            return outcome;
        }
        let event = answer(w, &action);
        assert!(m.accepts(&event));
        action = m.advance(event).unwrap();
    }
}

fn fresh() -> PushManager {
    PushManager::new(
        "sender".to_string(),
        "push.example.com".to_string(),
        "https".to_string(),
        "fcm".to_string(),
        "token-1".to_string(),
        "push.db".to_string(),
        StoredState { identity: None, records: Vec::new() },
    )
    .unwrap()
}

fn record(id: &str, scope: &str) -> SubscriptionRecord {
    SubscriptionRecord {
        channel_id: id.to_string(),
        scope: scope.to_string(),
        endpoint: format!("https://relay/{}", id),
        public_key: vec![4, 1],
        private_key: vec![5, 6],
        auth_secret: vec![1; 16],
        server_key: None,
    }
}

fn identity() -> ConnectionIdentity {
    ConnectionIdentity {
        connection_id: "uaid-0".to_string(),
        sender_id: "sender".to_string(),
        bridge_type: "fcm".to_string(),
        native_token: "token-1".to_string(),
    }
}

fn restored(ids: &[&str]) -> PushManager {
    PushManager::new(
        "sender".to_string(),
        "push.example.com".to_string(),
        "https".to_string(),
        "fcm".to_string(),
        "token-1".to_string(),
        "push.db".to_string(),
        StoredState {
            identity: Some(identity()),
            records: ids.iter().map(|id| record(id, "scope")).collect(),
        },
    )
    .unwrap()
}

fn subscribe(m: &mut PushManager, w: &mut World, id: &str, scope: &str) -> Outcome {
    let first = m.subscribe(id, scope, &None);
    run(m, w, first)
}

fn verify(m: &mut PushManager, w: &mut World) -> Outcome {
    let first = m.verify_connection();
    run(m, w, first)
}

fn ids(m: &PushManager) -> Vec<String> {
    m.channel_ids()
}

fn scope_of(m: &PushManager, id: &str) -> Option<String> {
    m.dispatch_info_for_chid(id).map(|info| info.scope)
}

fn notice(id: &str, scope: &str) -> PushSubscriptionChanged {
    PushSubscriptionChanged { channel_id: id.to_string(), scope: scope.to_string() }
}

#[test]
fn new_starts_idle_and_empty() {
    let m = fresh();
    assert!(m.is_idle());
    assert!(m.identity().is_none());
    assert!(m.channel_ids().is_empty());
    assert_eq!(m.config().sender_id, "sender");
    assert_eq!(m.config().server_host, "push.example.com");
    assert_eq!(m.config().http_protocol, "https");
    assert_eq!(m.config().bridge_type, "fcm");
    assert_eq!(m.config().registration_id, "token-1");
    assert_eq!(m.config().database_path, "push.db");
}

#[test]
fn new_takes_over_what_was_stored() {
    let m = restored(&["a", "b"]);
    assert_eq!(m.identity(), Some(&identity()));
    assert_eq!(ids(&m), vec!["a", "b"]);
    assert_eq!(scope_of(&m, "a"), Some("scope".to_string()));
    assert_eq!(scope_of(&m, "b"), Some("scope".to_string()));
    assert_eq!(scope_of(&m, "c"), None);
}

#[test]
fn new_rejects_two_records_under_one_channel() {
    let res = PushManager::new(
        "s".to_string(),
        "h".to_string(),
        "https".to_string(),
        "fcm".to_string(),
        "t".to_string(),
        "db".to_string(),
        StoredState {
            identity: Some(identity()),
            records: vec![record("a", "x"), record("b", "y"), record("a", "z")],
        },
    );
    assert_eq!(res.err(), Some(PushError::StorageError));
}

#[test]
fn new_rejects_a_record_under_the_empty_channel() {
    let res = PushManager::new(
        "s".to_string(),
        "h".to_string(),
        "https".to_string(),
        "fcm".to_string(),
        "t".to_string(),
        "db".to_string(),
        StoredState { identity: Some(identity()), records: vec![record("", "x")] },
    );
    assert_eq!(res.err(), Some(PushError::StorageError));
}

#[test]
fn new_rejects_records_without_identity() {
    let res = PushManager::new(
        "s".to_string(),
        "h".to_string(),
        "https".to_string(),
        "fcm".to_string(),
        "t".to_string(),
        "db".to_string(),
        StoredState { identity: None, records: vec![record("a", "x")] },
    );
    assert_eq!(res.err(), Some(PushError::StorageError));
}

#[test]
fn subscribe_generates_channel_and_dispatch_info_finds_it() {
    let mut m = fresh();
    let mut w = world();
    let outcome = subscribe(&mut m, &mut w, "", "scopeA");
    let response = match outcome {
        Outcome::Subscribed(r) => r,
        other => panic!("{:?}", other),
    };
    assert_eq!(response.channel_id, "chid-1");
    assert_eq!(response.subscription_info.endpoint, "https://relay/chid-1");
    assert_eq!(response.subscription_info.keys.p256dh, vec![4, 1, 2, 3]);
    assert_eq!(response.subscription_info.keys.auth, vec![7; 16]);
    assert_eq!(
        m.dispatch_info_for_chid("chid-1"),
        Some(DispatchInfo { channel_id: "chid-1".to_string(), scope: "scopeA".to_string() })
    );
    assert_eq!(m.dispatch_info_for_chid("chid-2"), None);
}

#[test]
fn subscribe_steps_in_order() {
    let mut m = fresh();
    let a = m.subscribe("", "scopeA", &Some("vapid".to_string()));
    assert_eq!(
        a,
        Action::Register {
            sender_id: "sender".to_string(),
            bridge_type: "fcm".to_string(),
            native_token: "token-1".to_string(),
        }
    );
    assert!(!m.is_idle());
    let a = m.advance(Event::Registered { connection_id: "uaid-9".to_string() }).unwrap();
    let stored = ConnectionIdentity {
        connection_id: "uaid-9".to_string(),
        sender_id: "sender".to_string(),
        bridge_type: "fcm".to_string(),
        native_token: "token-1".to_string(),
    };
    assert_eq!(a, Action::Persist(Change::SaveIdentity(stored.clone())));
    assert!(m.identity().is_none());
    let a = m.advance(Event::Stored).unwrap();
    assert_eq!(a, Action::GenerateChannelId);
    assert_eq!(m.identity(), Some(&stored));
    let a = m.advance(Event::ChannelId("c1".to_string())).unwrap();
    assert_eq!(a, Action::GenerateKeys);
    let keys = KeyMaterial {
        public_key: vec![4, 5],
        private_key: vec![6, 7],
        auth_secret: vec![1; 16],
    };
    let a = m.advance(Event::Keys(keys)).unwrap();
    assert_eq!(
        a,
        Action::CreateChannel { connection_id: "uaid-9".to_string(), channel_id: "c1".to_string() }
    );
    let a = m.advance(Event::ChannelCreated { endpoint: "https://e/1".to_string() }).unwrap();
    let made = SubscriptionRecord {
        channel_id: "c1".to_string(),
        scope: "scopeA".to_string(),
        endpoint: "https://e/1".to_string(),
        public_key: vec![4, 5],
        private_key: vec![6, 7],
        auth_secret: vec![1; 16],
        server_key: Some("vapid".to_string()),
    };
    assert_eq!(a, Action::Persist(Change::SaveRecord(made.clone())));
    assert!(ids(&m).is_empty());
    let a = m.advance(Event::Stored).unwrap();
    match a {
        Action::Finished(Outcome::Subscribed(r)) => {
            assert_eq!(r.channel_id, "c1");
            assert_eq!(r.subscription_info.endpoint, "https://e/1");
            assert_eq!(r.subscription_info.keys.auth, vec![1; 16]);
            assert_eq!(r.subscription_info.keys.p256dh, vec![4, 5]);
        }
        other => panic!("{:?}", other),
    }
    assert_eq!(ids(&m), vec!["c1"]);
    assert_eq!(scope_of(&m, "c1"), Some("scopeA".to_string()));
    assert!(m.is_idle());
    assert_eq!(
        m.decrypt("c1", "b", "aes128gcm", "", ""),
        Action::Decrypt {
            scheme: Scheme::Aes128Gcm,
            private_key: vec![6, 7],
            auth_secret: vec![1; 16],
            body: "b".to_string(),
            salt: String::new(),
            dh: String::new(),
        }
    );
}

#[test]
fn subscribe_registers_once() {
    let mut m = fresh();
    let mut w = world();
    assert!(matches!(subscribe(&mut m, &mut w, "", "a"), Outcome::Subscribed(_)));
    assert_eq!(w.registrations, 1);
    let first = m.subscribe("", "b", &None);
    assert_eq!(first, Action::GenerateChannelId);
    assert!(matches!(run(&mut m, &mut w, first), Outcome::Subscribed(_)));
    assert_eq!(w.registrations, 1);
    assert_eq!(ids(&m), vec!["chid-1", "chid-2"]);
}

#[test]
fn subscribe_with_given_channel_skips_naming() {
    let mut m = restored(&[]);
    let first = m.subscribe("mine", "s", &None);
    assert_eq!(first, Action::GenerateKeys);
}

#[test]
fn subscribe_again_overwrites_the_record() {
    let mut m = restored(&["a", "b"]);
    let mut w = world();
    assert!(matches!(subscribe(&mut m, &mut w, "a", "new scope"), Outcome::Subscribed(_)));
    assert_eq!(ids(&m), vec!["a", "b"]);
    assert_eq!(scope_of(&m, "a"), Some("new scope".to_string()));
    assert_eq!(scope_of(&m, "b"), Some("scope".to_string()));
    assert_eq!(
        m.decrypt("a", "b", "aes128gcm", "", ""),
        Action::Decrypt {
            scheme: Scheme::Aes128Gcm,
            private_key: vec![9, 8, 7],
            auth_secret: vec![7; 16],
            body: "b".to_string(),
            salt: String::new(),
            dh: String::new(),
        }
    );
}

#[test]
fn generated_channel_id_must_be_new() {
    let mut m = restored(&["c1"]);
    let a = m.subscribe("", "s", &None);
    assert_eq!(a, Action::GenerateChannelId);
    assert_eq!(m.advance(Event::ChannelId("c1".to_string())), Some(Action::GenerateChannelId));
    assert_eq!(m.advance(Event::ChannelId(String::new())), Some(Action::GenerateChannelId));
    assert_eq!(m.advance(Event::ChannelId("c2".to_string())), Some(Action::GenerateKeys));
}

#[test]
fn subscribe_fails_with_registration_error() {
    let mut m = fresh();
    let mut w = world();
    w.relay_down = Some(Some(400));
    assert_eq!(
        subscribe(&mut m, &mut w, "", "a"),
        Outcome::Failed(PushError::RegistrationError)
    );
    assert!(m.identity().is_none());
    assert!(w.persisted.is_empty());
}

#[test]
fn subscribe_fails_with_crypto_error() {
    let mut m = restored(&[]);
    let mut w = world();
    w.crypto_down = true;
    assert_eq!(subscribe(&mut m, &mut w, "", "a"), Outcome::Failed(PushError::CryptoError));
    assert!(w.persisted.is_empty());
    assert_eq!(w.created, 0);
}

#[test]
fn subscribe_rejects_short_auth_secret() {
    let mut m = restored(&[]);
    let mut w = world();
    w.auth_len = 15;
    assert_eq!(subscribe(&mut m, &mut w, "", "a"), Outcome::Failed(PushError::CryptoError));
    w.auth_len = 17;
    assert_eq!(subscribe(&mut m, &mut w, "", "a"), Outcome::Failed(PushError::CryptoError));
    assert_eq!(w.created, 0);
}

#[test]
fn subscribe_rejects_empty_keys() {
    let mut m = restored(&[]);
    assert_eq!(m.subscribe("c", "s", &None), Action::GenerateKeys);
    let keys = KeyMaterial { public_key: vec![], private_key: vec![1], auth_secret: vec![0; 16] };
    assert_eq!(
        m.advance(Event::Keys(keys)),
        Some(Action::Finished(Outcome::Failed(PushError::CryptoError)))
    );
    assert_eq!(m.subscribe("c", "s", &None), Action::GenerateKeys);
    let keys = KeyMaterial { public_key: vec![1], private_key: vec![], auth_secret: vec![0; 16] };
    assert_eq!(
        m.advance(Event::Keys(keys)),
        Some(Action::Finished(Outcome::Failed(PushError::CryptoError)))
    );
}

#[test]
fn subscribe_persists_nothing_when_create_fails() {
    let mut m = restored(&[]);
    let mut w = world();
    w.relay_down = Some(Some(503));
    assert_eq!(
        subscribe(&mut m, &mut w, "", "a"),
        Outcome::Failed(PushError::CommunicationError {
            status: Some(503),
            class: FailureClass::Transient
        })
    );
    assert!(w.persisted.is_empty());
    assert!(ids(&m).is_empty());
}

#[test]
fn subscribe_reports_storage_error_and_verify_heals() {
    let mut m = restored(&[]);
    let mut w = world();
    w.storage_down = true;
    assert_eq!(subscribe(&mut m, &mut w, "", "a"), Outcome::Failed(PushError::StorageError));
    assert!(ids(&m).is_empty());
    assert_eq!(w.remote, vec!["chid-1"]);
    w.storage_down = false;
    assert_eq!(verify(&mut m, &mut w), Outcome::Verified(vec![]));
    assert_eq!(w.orphans, vec!["chid-1"]);
}

#[test]
fn unsubscribe_unknown_channel_is_false_and_changes_nothing() {
    let mut m = restored(&["a", "b"]);
    assert_eq!(m.unsubscribe("zzz"), Action::Finished(Outcome::Unsubscribed(false)));
    assert_eq!(ids(&m), vec!["a", "b"]);
    assert_eq!(m.identity(), Some(&identity()));
    assert!(m.is_idle());
    let mut f = fresh();
    assert_eq!(f.unsubscribe("a"), Action::Finished(Outcome::Unsubscribed(false)));
    assert!(f.identity().is_none());
}

#[test]
fn unsubscribe_removes_one_record() {
    let mut m = restored(&["a", "b", "c"]);
    let a = m.unsubscribe("b");
    assert_eq!(
        a,
        Action::DeleteChannel { connection_id: "uaid-0".to_string(), channel_id: "b".to_string() }
    );
    let a = m.advance(Event::RelayOk).unwrap();
    assert_eq!(a, Action::Persist(Change::RemoveRecord("b".to_string())));
    assert_eq!(ids(&m), vec!["a", "b", "c"]);
    let a = m.advance(Event::Stored).unwrap();
    assert_eq!(a, Action::Finished(Outcome::Unsubscribed(true)));
    assert_eq!(ids(&m), vec!["a", "c"]);
}

#[test]
fn unsubscribe_is_false_when_identity_is_invalid() {
    for status in [401u16, 410] {
        let mut m = restored(&["a", "b"]);
        let mut w = world();
        w.relay_down = Some(Some(status));
        let first = m.unsubscribe("a");
        assert_eq!(run(&mut m, &mut w, first), Outcome::Unsubscribed(false));
        assert_eq!(ids(&m), vec!["b"]);
    }
}

#[test]
fn unsubscribe_propagates_other_failures() {
    let mut m = restored(&["a"]);
    let mut w = world();
    w.relay_down = Some(Some(404));
    let first = m.unsubscribe("a");
    assert_eq!(
        run(&mut m, &mut w, first),
        Outcome::Failed(PushError::CommunicationError {
            status: Some(404),
            class: FailureClass::Permanent
        })
    );
    assert_eq!(ids(&m), vec!["a"]);
    w.relay_down = Some(None);
    let first = m.unsubscribe("a");
    assert_eq!(
        run(&mut m, &mut w, first),
        Outcome::Failed(PushError::CommunicationError {
            status: None,
            class: FailureClass::Transient
        })
    );
    w.relay_down = None;
    w.storage_down = true;
    let first = m.unsubscribe("a");
    assert_eq!(run(&mut m, &mut w, first), Outcome::Failed(PushError::StorageError));
    assert_eq!(ids(&m), vec!["a"]);
}

#[test]
fn unsubscribe_empty_removes_all_and_verify_is_quiet() {
    let mut m = fresh();
    let mut w = world();
    assert!(matches!(subscribe(&mut m, &mut w, "", "a"), Outcome::Subscribed(_)));
    assert!(matches!(subscribe(&mut m, &mut w, "", "b"), Outcome::Subscribed(_)));
    assert_eq!(ids(&m).len(), 2);
    let first = m.unsubscribe("");
    assert_eq!(first, Action::DeleteAllChannels { connection_id: "uaid-1".to_string() });
    assert_eq!(run(&mut m, &mut w, first), Outcome::Unsubscribed(true));
    assert!(ids(&m).is_empty());
    assert_eq!(w.persisted.last(), Some(&Change::RemoveAllRecords));
    assert_eq!(verify(&mut m, &mut w), Outcome::Verified(vec![]));
}

#[test]
fn unsubscribe_all_without_identity_has_nothing_to_do() {
    let mut m = fresh();
    assert_eq!(m.unsubscribe_all(), Action::Finished(Outcome::Unsubscribed(true)));
    assert_eq!(m.unsubscribe(""), Action::Finished(Outcome::Unsubscribed(true)));
}

#[test]
fn unsubscribe_all_is_false_when_identity_is_invalid() {
    let mut m = restored(&["a", "b"]);
    let mut w = world();
    w.relay_down = Some(Some(410));
    let first = m.unsubscribe_all();
    assert_eq!(run(&mut m, &mut w, first), Outcome::Unsubscribed(false));
    assert!(ids(&m).is_empty());
    assert_eq!(m.identity(), Some(&identity()));
}

#[test]
fn unsubscribe_all_propagates_other_failures() {
    let mut m = restored(&["a", "b"]);
    let mut w = world();
    w.relay_down = Some(Some(500));
    let first = m.unsubscribe_all();
    assert_eq!(
        run(&mut m, &mut w, first),
        Outcome::Failed(PushError::CommunicationError {
            status: Some(500),
            class: FailureClass::Transient
        })
    );
    assert_eq!(ids(&m), vec!["a", "b"]);
}

#[test]
fn update_tells_the_relay_and_stores_the_token() {
    let mut m = restored(&["a"]);
    let a = m.update("token-2");
    assert_eq!(
        a,
        Action::UpdateToken {
            connection_id: "uaid-0".to_string(),
            native_token: "token-2".to_string()
        }
    );
    let a = m.advance(Event::RelayOk).unwrap();
    let mut changed = identity();
    changed.native_token = "token-2".to_string();
    assert_eq!(a, Action::Persist(Change::SaveIdentity(changed.clone())));
    assert_eq!(m.advance(Event::Stored), Some(Action::Finished(Outcome::Updated(true))));
    assert_eq!(m.identity(), Some(&changed));
    assert_eq!(m.config().registration_id, "token-2");
    assert_eq!(ids(&m), vec!["a"]);
}

#[test]
fn update_is_false_when_identity_is_invalid() {
    let mut m = restored(&["a"]);
    let mut w = world();
    w.relay_down = Some(Some(410));
    let first = m.update("token-2");
    assert_eq!(run(&mut m, &mut w, first), Outcome::Updated(false));
    assert_eq!(m.identity(), Some(&identity()));
    assert!(w.persisted.is_empty());
}

#[test]
fn update_propagates_other_failures() {
    let mut m = restored(&["a"]);
    let mut w = world();
    w.relay_down = Some(Some(400));
    let first = m.update("token-2");
    assert_eq!(
        run(&mut m, &mut w, first),
        Outcome::Failed(PushError::CommunicationError {
            status: Some(400),
            class: FailureClass::Permanent
        })
    );
    assert_eq!(m.identity(), Some(&identity()));
}

#[test]
fn update_without_identity_keeps_the_token_for_registration() {
    let mut m = fresh();
    assert_eq!(m.update("token-2"), Action::Finished(Outcome::Updated(true)));
    assert_eq!(m.config().registration_id, "token-2");
    assert_eq!(
        m.subscribe("", "s", &None),
        Action::Register {
            sender_id: "sender".to_string(),
            bridge_type: "fcm".to_string(),
            native_token: "token-2".to_string(),
        }
    );
}

#[test]
fn verify_without_identity_is_empty() {
    let mut m = fresh();
    assert_eq!(m.verify_connection(), Action::Finished(Outcome::Verified(vec![])));
    assert!(m.is_idle());
}

#[test]
fn verify_reports_lost_channels_and_deletes_orphans() {
    let mut m = restored(&["a", "b", "c", "d"]);
    let mut w = world();
    w.remote = vec!["x".to_string(), "b".to_string(), "d".to_string(), "y".to_string()];
    let first = m.verify_connection();
    assert_eq!(first, Action::ListChannels { connection_id: "uaid-0".to_string() });
    let a = m.advance(Event::Channels(w.remote.clone())).unwrap();
    assert_eq!(
        a,
        Action::Persist(Change::RemoveRecords(vec!["a".to_string(), "c".to_string()]))
    );
    let a = m.advance(Event::Stored).unwrap();
    assert_eq!(
        a,
        Action::DeleteOrphans {
            connection_id: "uaid-0".to_string(),
            channel_ids: vec!["x".to_string(), "y".to_string()],
        }
    );
    assert_eq!(ids(&m), vec!["b", "d"]);
    let a = m.advance(Event::RelayFailed { status: Some(500) }).unwrap();
    assert_eq!(
        a,
        Action::Finished(Outcome::Verified(vec![notice("a", "scope"), notice("c", "scope")]))
    );
    assert_eq!(ids(&m), vec!["b", "d"]);
    assert_eq!(m.identity(), Some(&identity()));
}

#[test]
fn verify_in_sync_does_nothing() {
    let mut m = restored(&["a", "b"]);
    let a = m.verify_connection();
    assert!(matches!(a, Action::ListChannels { .. }));
    let a = m.advance(Event::Channels(vec!["b".to_string(), "a".to_string()])).unwrap();
    assert_eq!(a, Action::Finished(Outcome::Verified(vec![])));
    assert_eq!(ids(&m), vec!["a", "b"]);
}

#[test]
fn verify_with_only_lost_channels() {
    let mut m = restored(&["a", "b"]);
    let mut w = world();
    w.remote = vec!["a".to_string()];
    assert_eq!(verify(&mut m, &mut w), Outcome::Verified(vec![notice("b", "scope")]));
    assert_eq!(ids(&m), vec!["a"]);
    assert!(w.orphans.is_empty());
}

#[test]
fn verify_with_only_orphans() {
    let mut m = restored(&["a"]);
    let mut w = world();
    w.remote = vec!["a".to_string(), "o".to_string()];
    assert_eq!(verify(&mut m, &mut w), Outcome::Verified(vec![]));
    assert_eq!(w.orphans, vec!["o"]);
    assert!(w.persisted.is_empty());
    assert_eq!(ids(&m), vec!["a"]);
}

#[test]
fn verify_wipes_when_identity_is_invalid() {
    let mut m = restored(&["a", "b"]);
    let mut w = world();
    w.relay_down = Some(Some(410));
    assert_eq!(
        verify(&mut m, &mut w),
        Outcome::Verified(vec![notice("a", "scope"), notice("b", "scope")])
    );
    assert!(ids(&m).is_empty());
    assert!(m.identity().is_none());
    assert_eq!(w.persisted, vec![Change::Wipe]);
    w.relay_down = None;
    assert_eq!(
        m.subscribe("", "s", &None),
        Action::Register {
            sender_id: "sender".to_string(),
            bridge_type: "fcm".to_string(),
            native_token: "token-1".to_string(),
        }
    );
}

#[test]
fn verify_keeps_everything_when_the_wipe_cannot_be_stored() {
    let mut m = restored(&["a", "b"]);
    let mut w = world();
    w.relay_down = Some(Some(401));
    w.storage_down = true;
    assert_eq!(verify(&mut m, &mut w), Outcome::Failed(PushError::StorageError));
    assert_eq!(ids(&m), vec!["a", "b"]);
    assert_eq!(m.identity(), Some(&identity()));
}

#[test]
fn verify_propagates_other_failures() {
    let mut m = restored(&["a", "b"]);
    let mut w = world();
    w.relay_down = Some(Some(502));
    assert_eq!(
        verify(&mut m, &mut w),
        Outcome::Failed(PushError::CommunicationError {
            status: Some(502),
            class: FailureClass::Transient
        })
    );
    assert_eq!(ids(&m), vec!["a", "b"]);
}

#[test]
fn decrypt_unknown_channel_is_record_not_found() {
    let mut m = restored(&["a"]);
    assert_eq!(
        m.decrypt("b", "body", "aes128gcm", "", ""),
        Action::Finished(Outcome::Failed(PushError::RecordNotFoundError))
    );
    assert!(m.is_idle());
    let mut f = fresh();
    assert_eq!(
        f.decrypt("a", "body", "bogus", "", ""),
        Action::Finished(Outcome::Failed(PushError::RecordNotFoundError))
    );
}

#[test]
fn decrypt_hands_out_the_key_material() {
    let mut m = restored(&["a"]);
    let a = m.decrypt("a", "body", "aes128gcm", "", "");
    assert_eq!(
        a,
        Action::Decrypt {
            scheme: Scheme::Aes128Gcm,
            private_key: vec![5, 6],
            auth_secret: vec![1; 16],
            body: "body".to_string(),
            salt: String::new(),
            dh: String::new(),
        }
    );
    assert_eq!(
        m.advance(Event::Plaintext(vec![1, 2, 3])),
        Some(Action::Finished(Outcome::Decrypted(vec![1, 2, 3])))
    );
    let a = m.decrypt("a", "body", "aesgcm", "salt", "dh");
    assert_eq!(
        a,
        Action::Decrypt {
            scheme: Scheme::AesGcm,
            private_key: vec![5, 6],
            auth_secret: vec![1; 16],
            body: "body".to_string(),
            salt: "salt".to_string(),
            dh: "dh".to_string(),
        }
    );
    assert_eq!(
        m.advance(Event::CryptoFailed),
        Some(Action::Finished(Outcome::Failed(PushError::CryptoError)))
    );
    assert!(m.is_idle());
}

#[test]
fn decrypt_rejects_unknown_encoding_and_missing_headers() {
    let mut m = restored(&["a"]);
    let crypto = Action::Finished(Outcome::Failed(PushError::CryptoError));
    assert_eq!(m.decrypt("a", "body", "aes256", "s", "d"), crypto);
    assert_eq!(m.decrypt("a", "body", "", "s", "d"), crypto);
    assert_eq!(m.decrypt("a", "body", "AESGCM", "s", "d"), crypto);
    assert_eq!(m.decrypt("a", "body", "aesgcm", "", "d"), crypto);
    assert_eq!(m.decrypt("a", "body", "aesgcm", "s", ""), crypto);
    assert!(m.is_idle());
}

#[test]
fn advance_refuses_what_is_no_answer() {
    let mut m = restored(&["a"]);
    assert_eq!(m.advance(Event::Stored), None);
    assert_eq!(m.advance(Event::RelayOk), None);
    let a = m.verify_connection();
    assert!(matches!(a, Action::ListChannels { .. }));
    assert!(!m.accepts(&Event::Stored));
    assert_eq!(m.advance(Event::Stored), None);
    assert_eq!(m.advance(Event::RelayOk), None);
    assert_eq!(m.advance(Event::Plaintext(vec![])), None);
    assert!(!m.is_idle());
    assert!(m.accepts(&Event::Channels(vec![])));
    assert_eq!(
        m.advance(Event::Channels(vec!["a".to_string()])),
        Some(Action::Finished(Outcome::Verified(vec![])))
    );
}

#[test]
fn channel_ids_stay_distinct() {
    let mut m = fresh();
    let mut w = world();
    for id in ["", "a", "", "a", "chid-1", "b", ""] {
        assert!(matches!(subscribe(&mut m, &mut w, id, "s"), Outcome::Subscribed(_)));
    }
    let mut seen = ids(&m);
    let n = seen.len();
    seen.sort();
    seen.dedup();
    assert_eq!(seen.len(), n);
    assert_eq!(seen, vec!["a", "b", "chid-1", "chid-2", "chid-3"]);
}
