use rs_mail_client::auth::{
    callback_bind_host, code_from_query, expiry_epoch, ConfigError, TokenEvent, TokenManager,
    TokenStep, Tokens, TokensFile,
};
use rs_mail_client::config::{resolve_db_path, Config, DaemonConfig, ImapClient, Notifier};

fn config(email: Option<&str>, redirect: Option<&str>) -> Config {
    Config {
        client_id: "cid".to_string(),
        imap_server: None,
        user_email: email.map(|s| s.to_string()),
        redirect_uri: redirect.map(|s| s.to_string()),
        db_path: None,
    }
}

fn manager() -> TokenManager {
    TokenManager::from_config(&config(Some("u@x.org"), None), None).unwrap()
}

#[test]
fn token_manager_from_config() {
    let tm = manager();
    assert_eq!(tm.user_email, "u@x.org");
    assert_eq!(tm.redirect_uri, "http://127.0.0.1:8080/callback");
    let tm = TokenManager::from_config(&config(Some("u"), Some("http://localhost:9/cb")), Some("s".into())).unwrap();
    assert_eq!(tm.redirect_uri, "http://localhost:9/cb");
    assert_eq!(tm.client_secret.as_deref(), Some("s"));
    assert_eq!(
        TokenManager::from_config(&config(None, None), None).unwrap_err(),
        ConfigError::MissingUserEmail
    );
}

fn cached(at: &str, exp: Option<i64>) -> TokenEvent {
    TokenEvent::CacheRead(Ok(Some(TokensFile { access_token: Some(at.into()), expires_at_epoch: exp })))
}

fn tokens(at: &str, rt: Option<&str>, expires_in: Option<u64>) -> Tokens {
    Tokens { access_token: at.into(), refresh_token: rt.map(|s| s.into()), expires_in }
}

#[test]
fn cached_token_used_until_expiry() {
    let tm = manager();
    assert_eq!(tm.get_access_token(99, cached("at", Some(100))), TokenStep::Return("at".into()));
    assert_eq!(tm.get_access_token(100, cached("at", Some(100))), TokenStep::LoadRefreshToken);
    assert_eq!(tm.get_access_token(0, cached("at", None)), TokenStep::LoadRefreshToken);
    assert_eq!(tm.get_access_token(0, TokenEvent::CacheRead(Ok(None))), TokenStep::LoadRefreshToken);
    assert_eq!(
        tm.get_access_token(0, TokenEvent::CacheRead(Err("unreadable".into()))),
        TokenStep::LoadRefreshToken
    );
}

#[test]
fn refresh_token_lookup() {
    let tm = manager();
    assert_eq!(
        tm.get_access_token(0, TokenEvent::RefreshTokenLoaded(Ok(Some("rt".into())))),
        TokenStep::Refresh("rt".into())
    );
    assert_eq!(tm.get_access_token(0, TokenEvent::RefreshTokenLoaded(Ok(None))), TokenStep::Consent);
    assert_eq!(
        tm.get_access_token(0, TokenEvent::RefreshTokenLoaded(Err("locked".into()))),
        TokenStep::Consent
    );
}

#[test]
fn refresh_success_is_stored_with_expiry() {
    let tm = manager();
    let step = tm.get_access_token(
        1000,
        TokenEvent::RefreshExchanged(Ok(tokens("new", Some("rt2"), Some(60)))),
    );
    assert_eq!(
        step,
        TokenStep::Persist {
            access_token: "new".into(),
            expires_at: 1060,
            refresh_token: Some("rt2".into()),
            user_email: "u@x.org".into(),
        }
    );
    assert_eq!(tm.get_access_token(1000, TokenEvent::Persisted("new".into())), TokenStep::Return("new".into()));
}

#[test]
fn failed_refresh_falls_back_to_consent() {
    let tm = manager();
    assert_eq!(
        tm.get_access_token(0, TokenEvent::RefreshExchanged(Err("invalid_grant".into()))),
        TokenStep::Consent
    );
}

#[test]
fn consent_outcomes() {
    let tm = manager();
    let step = tm.get_access_token(1000, TokenEvent::ConsentFinished(Ok(tokens("c", None, None))));
    assert_eq!(
        step,
        TokenStep::Persist {
            access_token: "c".into(),
            expires_at: 4500,
            refresh_token: None,
            user_email: "u@x.org".into(),
        }
    );
    assert_eq!(
        tm.get_access_token(1000, TokenEvent::ConsentFinished(Err("timeout".into()))),
        TokenStep::Fail("timeout".into())
    );
}

#[test]
fn expiry_computation() {
    assert_eq!(expiry_epoch(1000, Some(60)), 1060);
    assert_eq!(expiry_epoch(1000, None), 4500);
    assert_eq!(expiry_epoch(i64::MAX - 5, Some(10)), i64::MAX);
    assert_eq!(expiry_epoch(-10, Some(u64::MAX)), i64::MAX);
    assert_eq!(expiry_epoch(i64::MIN, Some(u64::MAX)), i64::MAX);
    assert_eq!(expiry_epoch(i64::MIN, Some(1u64 << 63)), 0);
}

#[test]
fn loopback_hosts_bind_ipv4() {
    assert_eq!(callback_bind_host("localhost"), "127.0.0.1");
    assert_eq!(callback_bind_host("127.0.0.1"), "127.0.0.1");
    assert_eq!(callback_bind_host("10.0.0.2"), "10.0.0.2");
}

#[test]
fn callback_code_extraction() {
    let pairs = vec![("state".to_string(), "s".to_string()), ("code".to_string(), "abc".to_string())];
    assert_eq!(code_from_query(&pairs).as_deref(), Some("abc"));
    assert_eq!(code_from_query(&vec![("error".to_string(), "denied".to_string())]), None);
}

#[test]
fn config_helpers() {
    let mut c = config(Some("u"), None);
    assert_eq!(resolve_db_path(&c), None);
    c.db_path = Some("/tmp/m.db".into());
    assert_eq!(resolve_db_path(&c).as_deref(), Some("/tmp/m.db"));
    let d = DaemonConfig { interval_secs: 2, keep_recent: 10, pages_to_fetch: 1 };
    assert_eq!(d.poll_interval_secs(), 5);
    let d = DaemonConfig { interval_secs: 60, keep_recent: 10, pages_to_fetch: 1 };
    assert_eq!(d.poll_interval_secs(), 60);
    let client = ImapClient::new("imap.example.org".into(), "u".into());
    assert_eq!(client.server, "imap.example.org");
    assert_eq!(Notifier::new("/icon.png".into()).icon_path, "/icon.png");
}
