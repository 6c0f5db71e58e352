use ssh_tunnel::{
    EstablishAction, EstablishEvent, EstablishPhase, Establisher, TunnelConfig,
};

fn password_config() -> TunnelConfig {
    TunnelConfig {
        ssh_host: "ssh.example.com".to_string(),
        ssh_port: 22,
        ssh_username: "deploy".to_string(),
        auth_method: "password".to_string(),
        password: Some("hunter2".to_string()),
        key_path: None,
        key_passphrase: None,
        remote_host: "db.internal".to_string(),
        remote_port: 5432,
    }
}

fn key_config() -> TunnelConfig {
    TunnelConfig {
        ssh_host: "ssh.example.com".to_string(),
        ssh_port: 2222,
        ssh_username: "deploy".to_string(),
        auth_method: "key".to_string(),
        password: None,
        key_path: Some("/nonexistent/id_ed25519".to_string()),
        key_passphrase: Some("secret".to_string()),
        remote_host: "db.internal".to_string(),
        remote_port: 1433,
    }
}

#[test]
fn absent_password_fails_before_any_connection_attempt() {
    let mut c = password_config();
    c.password = None;
    let e = Establisher::begin(&c).unwrap_err();
    assert_eq!(e.code, "AUTH_ERROR");
    assert_eq!(e.message, "Password required for password authentication");
}

#[test]
fn empty_password_fails_like_an_absent_one() {
    let mut c = password_config();
    c.password = Some(String::new());
    let e = Establisher::begin(&c).unwrap_err();
    assert_eq!(e.code, "AUTH_ERROR");
}

#[test]
fn key_method_without_a_path_fails() {
    let mut c = key_config();
    c.key_path = None;
    let e = Establisher::begin(&c).unwrap_err();
    assert_eq!(e.code, "AUTH_ERROR");
    assert_eq!(e.message, "Key path required for key authentication");
}

#[test]
fn unknown_method_is_never_attempted() {
    let mut c = password_config();
    c.auth_method = "agent".to_string();
    let e = Establisher::begin(&c).unwrap_err();
    assert_eq!(e.code, "INVALID_AUTH_METHOD");
    assert_eq!(e.message, "Unknown auth method: agent");
}

#[test]
fn nonexistent_key_path_fails_with_key_not_found() {
    let mut est = Establisher::begin(&key_config()).unwrap();
    let a = est.step(EstablishEvent::Connected);
    match a {
        EstablishAction::LoadKey { key_path, passphrase } => {
            assert_eq!(key_path, "/nonexistent/id_ed25519");
            assert_eq!(passphrase.as_deref(), Some("secret"));
        },
        _ => panic!("expected a key-load action"),
    }
    let a = est.step(EstablishEvent::KeyMissing);
    match a {
        EstablishAction::Fail(e) => {
            assert_eq!(e.code, "KEY_NOT_FOUND");
            assert_eq!(e.message, "SSH key file not found: /nonexistent/id_ed25519");
        },
        _ => panic!("expected a failure"),
    }
    assert_eq!(est.phase, EstablishPhase::Failed);
}

#[test]
fn password_establishment_happy_path() {
    let mut est = Establisher::begin(&password_config()).unwrap();
    assert_eq!(est.phase, EstablishPhase::AwaitingConnect);
    let a = est.step(EstablishEvent::Connected);
    match a {
        EstablishAction::AuthenticateWithPassword { username, password } => {
            assert_eq!(username, "deploy");
            assert_eq!(password, "hunter2");
        },
        _ => panic!("expected password authentication"),
    }
    let a = est.step(EstablishEvent::AuthAccepted);
    assert!(matches!(a, EstablishAction::BindLocalPort));
    let a = est.step(EstablishEvent::Bound(49152));
    match a {
        EstablishAction::Succeed { local_port } => assert_eq!(local_port, 49152),
        _ => panic!("expected success"),
    }
    assert_eq!(est.phase, EstablishPhase::Succeeded(49152));
}

#[test]
fn key_establishment_happy_path() {
    let mut est = Establisher::begin(&key_config()).unwrap();
    let a = est.step(EstablishEvent::Connected);
    assert!(matches!(a, EstablishAction::LoadKey { .. }));
    assert_eq!(est.phase, EstablishPhase::AwaitingKey);
    let a = est.step(EstablishEvent::KeyLoaded);
    match a {
        EstablishAction::AuthenticateWithKey { username } => assert_eq!(username, "deploy"),
        _ => panic!("expected key authentication"),
    }
    let a = est.step(EstablishEvent::AuthAccepted);
    assert!(matches!(a, EstablishAction::BindLocalPort));
    let a = est.step(EstablishEvent::Bound(50000));
    assert!(matches!(a, EstablishAction::Succeed { local_port: 50000 }));
}

#[test]
fn connect_timeout_maps_to_timeout() {
    let mut est = Establisher::begin(&password_config()).unwrap();
    let a = est.step(EstablishEvent::ConnectTimedOut);
    match a {
        EstablishAction::Fail(e) => {
            assert_eq!(e.code, "TIMEOUT");
            assert_eq!(e.message, "Connection timed out");
        },
        _ => panic!("expected a failure"),
    }
    assert_eq!(est.phase, EstablishPhase::Failed);
}

#[test]
fn connect_refusal_maps_to_connection_error() {
    let mut est = Establisher::begin(&password_config()).unwrap();
    let a = est.step(EstablishEvent::ConnectFailed("connection refused".to_string()));
    match a {
        EstablishAction::Fail(e) => {
            assert_eq!(e.code, "CONNECTION_ERROR");
            assert_eq!(e.message, "Failed to connect to SSH server: connection refused");
        },
        _ => panic!("expected a failure"),
    }
}

#[test]
fn rejected_credentials_map_to_auth_failed() {
    let mut est = Establisher::begin(&password_config()).unwrap();
    est.step(EstablishEvent::Connected);
    let a = est.step(EstablishEvent::AuthRejected);
    match a {
        EstablishAction::Fail(e) => {
            assert_eq!(e.code, "AUTH_FAILED");
            assert_eq!(e.message, "Authentication failed");
        },
        _ => panic!("expected a failure"),
    }
}

#[test]
fn password_transport_failure_maps_to_auth_failed() {
    let mut est = Establisher::begin(&password_config()).unwrap();
    est.step(EstablishEvent::Connected);
    let a = est.step(EstablishEvent::AuthTransportFailed("broken pipe".to_string()));
    match a {
        EstablishAction::Fail(e) => {
            assert_eq!(e.code, "AUTH_FAILED");
            assert_eq!(e.message, "Password authentication failed: broken pipe");
        },
        _ => panic!("expected a failure"),
    }
}

#[test]
fn key_transport_failure_maps_to_auth_failed() {
    let mut est = Establisher::begin(&key_config()).unwrap();
    est.step(EstablishEvent::Connected);
    est.step(EstablishEvent::KeyLoaded);
    let a = est.step(EstablishEvent::AuthTransportFailed("broken pipe".to_string()));
    match a {
        EstablishAction::Fail(e) => {
            assert_eq!(e.code, "AUTH_FAILED");
            assert_eq!(e.message, "Key authentication failed: broken pipe");
        },
        _ => panic!("expected a failure"),
    }
}

#[test]
fn unreadable_key_maps_to_key_load_error() {
    let mut est = Establisher::begin(&key_config()).unwrap();
    est.step(EstablishEvent::Connected);
    let a = est.step(EstablishEvent::KeyUnreadable("bad passphrase".to_string()));
    match a {
        EstablishAction::Fail(e) => {
            assert_eq!(e.code, "KEY_LOAD_ERROR");
            assert_eq!(e.message, "Failed to load SSH key: bad passphrase");
        },
        _ => panic!("expected a failure"),
    }
}

#[test]
fn bind_failure_maps_to_bind_error() {
    let mut est = Establisher::begin(&password_config()).unwrap();
    est.step(EstablishEvent::Connected);
    est.step(EstablishEvent::AuthAccepted);
    let a = est.step(EstablishEvent::BindFailed("address in use".to_string()));
    match a {
        EstablishAction::Fail(e) => {
            assert_eq!(e.code, "BIND_ERROR");
            assert_eq!(e.message, "Failed to bind local port: address in use");
        },
        _ => panic!("expected a failure"),
    }
}
