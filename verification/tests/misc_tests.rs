use matrix_svelte::login::{get_stronghold_client_key, MatrixClientConfig};
use matrix_svelte::login_store::LoginState;
use matrix_svelte::models::matrix::{
    MatrixSvelteEmitEvent, MatrixSvelteListenEvent, ToastNotificationRequest,
    ToastNotificationVariant,
};
use matrix_svelte::notifications::{enqueue_toast_notification, process_toast_notifications};
use matrix_svelte::signals::{broadcast_event, init_broadcaster, subscribe_to_events, UIUpdateMessage};
use matrix_svelte::stronghold::builder::{Builder, PasswordHashFunctionKind};
use matrix_svelte::stronghold::utils::{BytesDto, KeyDerivation};
use matrix_svelte::update_queue::ToastQueue;
use matrix_svelte::user_profile::UserProfile;

#[test]
fn listen_and_emit_event_names() {
    assert_eq!(
        MatrixSvelteListenEvent::RoomsCollectionStarted.as_str(),
        "matrix-svelte://rooms-collection-started"
    );
    assert_eq!(MatrixSvelteListenEvent::RoomCreated.as_str(), "matrix-svelte://room-created");
    assert_eq!(
        MatrixSvelteListenEvent::VerificationResult.as_str(),
        "matrix-svelte://verification-result"
    );
    assert_eq!(
        MatrixSvelteListenEvent::MatrixUpdateCurrentActiveRoom.as_str(),
        "matrix-svelte://update-current-active-room"
    );
    assert_eq!(MatrixSvelteEmitEvent::RoomCreate.as_str(), "matrix-svelte://room-create");
    assert_eq!(
        MatrixSvelteEmitEvent::VerificationStart.as_str(),
        "matrix-svelte://verification-start"
    );
    assert_eq!(
        MatrixSvelteEmitEvent::ToastNotification.as_str(),
        "matrix-svelte://toast-notification"
    );
}

#[test]
fn login_state_names() {
    assert_eq!(LoginState::Initiating.as_str(), "initiating");
    assert_eq!(LoginState::Restored.as_str(), "restored");
    assert_eq!(LoginState::AwaitingForLogin.as_str(), "awaitingForLogin");
    assert_eq!(LoginState::LoggedIn.as_str(), "loggedIn");
}

#[test]
fn a_toast_with_a_description_is_forced_to_the_description_flavor() {
    let with = ToastNotificationRequest::new(
        "saved".to_owned(),
        Some("all good".to_owned()),
        ToastNotificationVariant::Success,
    );
    assert!(matches!(with.variant, ToastNotificationVariant::Description));
    let without = ToastNotificationRequest::new(
        "saved".to_owned(),
        None,
        ToastNotificationVariant::Success,
    );
    assert!(matches!(without.variant, ToastNotificationVariant::Success));
}

#[test]
fn toasts_are_shown_in_the_order_they_were_enqueued() {
    let broadcaster = init_broadcaster(8);
    let mut queue = ToastQueue::new();
    enqueue_toast_notification(
        &mut queue,
        &broadcaster,
        ToastNotificationRequest::new("one".to_owned(), None, ToastNotificationVariant::Info),
    );
    enqueue_toast_notification(
        &mut queue,
        &broadcaster,
        ToastNotificationRequest::new("two".to_owned(), None, ToastNotificationVariant::Info),
    );
    let drained = process_toast_notifications(&mut queue);
    assert_eq!(drained.len(), 2);
    assert_eq!(drained[0].message, "one");
    assert_eq!(drained[1].message, "two");
    assert!(process_toast_notifications(&mut queue).is_empty());
}

#[test]
fn the_refresh_signal_reaches_a_subscriber() {
    let broadcaster = init_broadcaster(8);
    let mut receiver = subscribe_to_events(&broadcaster);
    let delivered = broadcast_event(&broadcaster, UIUpdateMessage::RefreshUI);
    assert!(delivered.is_ok());
    assert!(delivered.unwrap() >= 1);
    assert!(matches!(receiver.try_recv(), Ok(UIUpdateMessage::RefreshUI)));
    drop(receiver);
    assert!(broadcast_event(&broadcaster, UIUpdateMessage::RefreshUI).is_err());
}

#[test]
fn the_session_key_is_fixed() {
    match get_stronghold_client_key() {
        BytesDto::Text(t) => assert_eq!(t, "matrix_session"),
        BytesDto::Raw(_) => panic!("expected textual key material"),
    }
}

#[test]
fn key_material_converts_to_bytes() {
    assert_eq!(BytesDto::Text("ab".to_owned()).into_bytes(), vec![97, 98]);
    assert_eq!(BytesDto::Raw(vec![1, 2]).into_bytes(), vec![1, 2]);
}

#[test]
fn login_config_keeps_its_fields() {
    let config = MatrixClientConfig::new(
        "alice".to_owned(),
        "pw".to_owned(),
        "https://example.test".to_owned(),
        "client".to_owned(),
    );
    assert_eq!(config.username, "alice");
    assert_eq!(config.password, "pw");
    assert_eq!(config.homeserver_url, "https://example.test");
    assert_eq!(config.client_name, "client");
}

#[test]
fn blake2_derivation_transforms_its_inputs() {
    let salt = [7u8; 32];
    let key = KeyDerivation::blake2("password", &salt);
    assert_eq!(key.len(), 32);
    // A derivation that handed its input back unchanged would fail here.
    assert_ne!(key, b"password".to_vec());
    assert_eq!(KeyDerivation::blake2("password", &salt), key);
    assert_ne!(KeyDerivation::blake2("password", &[8u8; 32]), key);
}

#[test]
fn argon2_derivation_transforms_its_inputs() {
    let salt = [7u8; 32];
    let key = KeyDerivation::argon2("password", &salt).expect("a valid salt derives a key");
    assert_eq!(key.len(), 32);
    assert_ne!(key, b"password".to_vec());
    assert_eq!(KeyDerivation::argon2("password", &salt).unwrap(), key);
    // A salt below the minimum length is rejected, not thrown.
    assert!(KeyDerivation::argon2("password", &[1u8; 2]).is_none());
}

#[test]
fn the_builder_selects_the_hash_based_derivation() {
    let builder = Builder::with_blake2(std::path::PathBuf::from("salt"));
    let function = matrix_svelte::stronghold::builder::PasswordHashFunction {
        kind: builder.password_hash_function,
    };
    assert!(matches!(function.kind, PasswordHashFunctionKind::Blake2(_)));
    let salt = [7u8; 32];
    let key = function.apply("password", &salt).expect("the hash-based derivation never fails");
    assert_eq!(key, KeyDerivation::blake2("password", &salt));
}

#[test]
fn displayable_name_falls_back_to_the_user_identifier() {
    let named = UserProfile {
        user_id: "@a:x".to_owned(),
        username: Some("Alice".to_owned()),
        avatar_url: None,
    };
    assert_eq!(named.displayable_name(), "Alice");
    let empty = UserProfile {
        user_id: "@a:x".to_owned(),
        username: Some(String::new()),
        avatar_url: None,
    };
    assert_eq!(empty.displayable_name(), "@a:x");
    let unnamed = UserProfile { user_id: "@a:x".to_owned(), username: None, avatar_url: None };
    assert_eq!(unnamed.displayable_name(), "@a:x");
}
