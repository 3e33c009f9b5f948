use edc_connector_tui::config::{default_file, AuthKind, ConnectorApiVersion, ConnectorConfig};
use edc_connector_tui::types::connector::{oauth_init_failed, resolve_auth, Auth, ConnectorStatus};

#[test]
fn profile_defaults_are_version_three_without_context() {
    let c = ConnectorConfig::new(
        String::from("one"),
        String::from("http://localhost:19193/management"),
        AuthKind::NoAuth,
    );
    assert_eq!(c.name(), "one");
    assert_eq!(c.address(), "http://localhost:19193/management");
    assert!(matches!(c.version(), ConnectorApiVersion::V3));
    assert!(c.participant_context_id().is_none());
}

#[test]
fn auth_kinds_have_their_labels() {
    assert_eq!(AuthKind::NoAuth.kind(), "No auth");
    assert_eq!(AuthKind::Token { token_alias: String::from("a") }.kind(), "Token based");
    let oauth = AuthKind::OAuth {
        client_id: String::from("id"),
        token_url: String::from("http://localhost/token"),
        secret_alias: String::from("s"),
    };
    assert_eq!(oauth.kind(), "OAuth2");
}

#[test]
fn missing_token_becomes_a_connector_status() {
    let kind = AuthKind::Token { token_alias: String::from("edc-token") };
    let (status, auth) = resolve_auth(&kind, None);
    match status {
        ConnectorStatus::Custom(msg) => {
            assert_eq!(msg, "Token not found for alias edc-token")
        },
        _ => panic!("expected a custom status"),
    }
    assert!(matches!(auth, Auth::NoAuth));
}

#[test]
fn resolved_token_connects() {
    let kind = AuthKind::Token { token_alias: String::from("edc-token") };
    let (status, auth) = resolve_auth(&kind, Some(String::from("SECRET-REDACTED")));
    assert!(matches!(status, ConnectorStatus::Connected));
    match auth {
        Auth::ApiToken(t) => assert_eq!(t, "SECRET-REDACTED"),
        _ => panic!("expected a token"),
    }
}

#[test]
fn missing_oauth_secret_becomes_a_connector_status() {
    let kind = AuthKind::OAuth {
        client_id: String::from("id"),
        token_url: String::from("http://localhost/token"),
        secret_alias: String::from("edc-oauth"),
    };
    let (status, auth) = resolve_auth(&kind, None);
    match status {
        ConnectorStatus::Custom(msg) => {
            assert_eq!(msg, "Secret not found for alias edc-oauth")
        },
        _ => panic!("expected a custom status"),
    }
    assert!(matches!(auth, Auth::NoAuth));
}

#[test]
fn resolved_oauth_secret_connects() {
    let kind = AuthKind::OAuth {
        client_id: String::from("id"),
        token_url: String::from("http://localhost/token"),
        secret_alias: String::from("edc-oauth"),
    };
    let (status, auth) = resolve_auth(&kind, Some(String::from("SECRET-REDACTED")));
    assert!(matches!(status, ConnectorStatus::Connected));
    match auth {
        Auth::OAuth { client_id, client_secret, token_url } => {
            assert_eq!(client_id, "id");
            assert_eq!(client_secret, "SECRET-REDACTED");
            assert_eq!(token_url, "http://localhost/token");
        },
        _ => panic!("expected client credentials"),
    }
}

#[test]
fn failed_oauth_initialisation_has_its_status() {
    match oauth_init_failed("edc-oauth") {
        ConnectorStatus::Custom(msg) => {
            assert_eq!(msg, "Failed to initialize OAuth2 for alias edc-oauth")
        },
        _ => panic!("expected a custom status"),
    }
}

#[test]
fn the_profile_file_lives_under_the_configuration_directory() {
    assert_eq!(
        default_file("/home/operator/.config"),
        "/home/operator/.config/edc-connector-tui/config.toml"
    );
}
