use push::error::{classify, communication_error, FailureClass, PushError};
use push::manager::{check_keys, select_scheme, PushManager, StoredState};
use push::protocol::{duplicate_ids, Action, Change, Event, KeyMaterial, Outcome, Scheme};
use push::record::{
    ConnectionIdentity, DispatchInfo, PushSubscriptionChanged, SubscriptionRecord,
    AUTH_SECRET_LEN,
};

fn record() -> SubscriptionRecord {
    SubscriptionRecord {
        channel_id: "c".to_string(),
        scope: "s".to_string(),
        endpoint: "https://e".to_string(),
        public_key: vec![4, 1],
        private_key: vec![5, 6],
        auth_secret: vec![1; 16],
        server_key: Some("k".to_string()),
    }
}

fn identity() -> ConnectionIdentity {
    ConnectionIdentity {
        connection_id: "u".to_string(),
        sender_id: "s".to_string(),
        bridge_type: "fcm".to_string(),
        native_token: "t".to_string(),
    }
}

#[test]
fn classify_by_status() {
    assert_eq!(classify(Some(401)), FailureClass::IdentityInvalid);
    assert_eq!(classify(Some(410)), FailureClass::IdentityInvalid);
    assert_eq!(classify(Some(400)), FailureClass::Permanent);
    assert_eq!(classify(Some(404)), FailureClass::Permanent);
    assert_eq!(classify(Some(409)), FailureClass::Permanent);
    assert_eq!(classify(Some(499)), FailureClass::Permanent);
    assert_eq!(classify(Some(500)), FailureClass::Transient);
    assert_eq!(classify(Some(503)), FailureClass::Transient);
    assert_eq!(classify(Some(399)), FailureClass::Transient);
    assert_eq!(classify(Some(0)), FailureClass::Transient);
    assert_eq!(classify(Some(u16::MAX)), FailureClass::Transient);
    assert_eq!(classify(None), FailureClass::Transient);
}

#[test]
fn communication_error_carries_status_and_class() {
    assert_eq!(
        communication_error(Some(410)),
        PushError::CommunicationError { status: Some(410), class: FailureClass::IdentityInvalid }
    );
    assert_eq!(
        communication_error(Some(418)),
        PushError::CommunicationError { status: Some(418), class: FailureClass::Permanent }
    );
    assert_eq!(
        communication_error(None),
        PushError::CommunicationError { status: None, class: FailureClass::Transient }
    );
}

#[test]
fn select_scheme_by_encoding() {
    assert_eq!(select_scheme("aes128gcm", "", ""), Some(Scheme::Aes128Gcm));
    assert_eq!(select_scheme("aes128gcm", "s", "d"), Some(Scheme::Aes128Gcm));
    assert_eq!(select_scheme("aesgcm", "s", "d"), Some(Scheme::AesGcm));
    assert_eq!(select_scheme("aesgcm", "", "d"), None);
    assert_eq!(select_scheme("aesgcm", "s", ""), None);
    assert_eq!(select_scheme("aesgcm ", "s", "d"), None);
    assert_eq!(select_scheme("Aes128Gcm", "s", "d"), None);
    assert_eq!(select_scheme("", "s", "d"), None);
}

#[test]
fn check_keys_wants_sixteen_secret_bytes() {
    let keys = |p: usize, s: usize, a: usize| KeyMaterial {
        public_key: vec![1; p],
        private_key: vec![2; s],
        auth_secret: vec![3; a],
    };
    assert_eq!(AUTH_SECRET_LEN, 16);
    assert!(check_keys(&keys(65, 32, 16)));
    assert!(check_keys(&keys(1, 1, 16)));
    assert!(!check_keys(&keys(65, 32, 15)));
    assert!(!check_keys(&keys(65, 32, 17)));
    assert!(!check_keys(&keys(65, 32, 0)));
    assert!(!check_keys(&keys(0, 32, 16)));
    assert!(!check_keys(&keys(65, 0, 16)));
}

#[test]
fn record_publishes_no_private_key() {
    let r = record();
    let response = r.response();
    assert_eq!(response.channel_id, "c");
    assert_eq!(response.subscription_info.endpoint, "https://e");
    assert_eq!(response.subscription_info.keys.p256dh, vec![4, 1]);
    assert_eq!(response.subscription_info.keys.auth, vec![1; 16]);
    assert_eq!(
        r.changed(),
        PushSubscriptionChanged { channel_id: "c".to_string(), scope: "s".to_string() }
    );
    assert_eq!(
        r.dispatch_info(),
        DispatchInfo { channel_id: "c".to_string(), scope: "s".to_string() }
    );
}

#[test]
fn duplicates_are_equal() {
    assert_eq!(record().duplicate(), record());
    assert_eq!(identity().duplicate(), identity());
    let notice = PushSubscriptionChanged { channel_id: "c".to_string(), scope: "s".to_string() };
    assert_eq!(notice.duplicate(), notice);
    let ids = vec!["a".to_string(), String::new(), "b".to_string()];
    assert_eq!(duplicate_ids(&ids), ids);
    assert!(duplicate_ids(&Vec::new()).is_empty());
    for change in [
        Change::SaveIdentity(identity()),
        Change::SaveRecord(record()),
        Change::RemoveRecord("a".to_string()),
        Change::RemoveRecords(ids.clone()),
        Change::RemoveAllRecords,
        Change::Wipe,
    ] {
        assert_eq!(change.duplicate(), change);
    }
}

#[test]
fn subscribe_surfaces_an_invalid_identity_as_communication_error() {
    let mut m = PushManager::new(
        "s".to_string(),
        "h".to_string(),
        "https".to_string(),
        "fcm".to_string(),
        "t".to_string(),
        "db".to_string(),
        StoredState { identity: Some(identity()), records: vec![record()] },
    )
    .unwrap();
    assert_eq!(m.subscribe("n", "s", &None), Action::GenerateKeys);
    let keys = KeyMaterial {
        public_key: vec![1],
        private_key: vec![2],
        auth_secret: vec![3; 16],
    };
    assert_eq!(
        m.advance(Event::Keys(keys)),
        Some(Action::CreateChannel { connection_id: "u".to_string(), channel_id: "n".to_string() })
    );
    assert_eq!(
        m.advance(Event::RelayFailed { status: Some(410) }),
        Some(Action::Finished(Outcome::Failed(PushError::CommunicationError {
            status: Some(410),
            class: FailureClass::IdentityInvalid
        })))
    );
    assert_eq!(m.channel_ids(), vec!["c"]);
    assert!(m.identity().is_some());
}
