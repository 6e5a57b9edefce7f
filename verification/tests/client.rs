use ia_get_core::client::{client_settings, ClientSettings};
use ia_get_core::error::IaGetError;

#[test]
fn client_without_a_session() {
    assert_eq!(
        client_settings(None),
        Ok(ClientSettings {
            connect_timeout_secs: 600,
            pool_idle_timeout_secs: 90,
            pool_max_idle_per_host: 1,
            tcp_keepalive_secs: 60,
            cookie: None,
        })
    );
}

#[test]
fn client_with_a_session() {
    let settings = client_settings(Some("a=b; \u{e9}\t")).unwrap();
    assert_eq!(settings.cookie, Some(b"a=b; \xc3\xa9\t".to_vec()));
    assert_eq!(settings.connect_timeout_secs, 600);
}

#[test]
fn cookie_with_a_control_character_is_refused() {
    for cookie in ["a\nb", "\r", "a\x7f", "\0"] {
        assert_eq!(
            client_settings(Some(cookie)),
            Err(IaGetError::Network(
                "Invalid auth cookie value: failed to parse header value".to_string()
            ))
        );
    }
}
