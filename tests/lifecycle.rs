use jellyroller::config::{AppConfig, ConfigRecord, ConfigStatus, TokenKind};
use jellyroller::dispatch::{accept, CliError, ContentType, Method, Request};
use jellyroller::entities::TokenItem;
use jellyroller::lifecycle::{find_api_key, Action, Event, ExchangeStep, Lifecycle, Phase};

fn item(app_name: &str, key: &str) -> TokenItem {
    TokenItem {
        id: 1,
        access_token: key.to_string(),
        device_id: String::new(),
        app_name: app_name.to_string(),
        app_version: String::new(),
        device_name: String::new(),
        user_id: String::new(),
        is_active: true,
        date_created: String::new(),
        date_revoked: String::new(),
        date_last_activity: String::new(),
        user_name: String::new(),
    }
}

fn sent(a: Action) -> Request {
    match a {
        Action::Send(r) => r,
        _ => panic!("expected a request"),
    }
}

fn stored(a: Action) -> AppConfig {
    match a {
        Action::Store(c) => c,
        _ => panic!("expected a record to store"),
    }
}

fn setup(url: &str) -> Event {
    Event::Setup {
        server_url: url.to_string(),
        username: "admin".to_string(),
        password: "secret".to_string(),
        os: "linux".to_string(),
    }
}

fn legacy_config() -> AppConfig {
    AppConfig {
        status: ConfigStatus::Configured,
        comfy: true,
        server_url: "http://host:8096".to_string(),
        os: "linux".to_string(),
        api_key: "T1".to_string(),
        token: TokenKind::Unknown,
    }
}

#[test]
fn fresh_setup_stores_durable_key() {
    let (mut lc, a) = Lifecycle::start(&AppConfig::default());
    assert!(matches!(a, Action::AskForSetup));
    assert_eq!(lc.phase, Phase::NotConfigured);

    let login = sent(lc.step(setup("http://host:8096")));
    assert_eq!(lc.phase, Phase::Authenticating);
    assert_eq!(login.method, Method::Post);
    assert_eq!(login.url, "http://host:8096/Users/authenticatebyname");
    assert_eq!(login.content_type, ContentType::Json);
    assert_eq!(login.body, "{\"Username\":\"admin\",\"Pw\":\"secret\"}");
    assert!(login.authorization.starts_with("MediaBrowser Client=\"JellyRoller\""));

    let list = sent(lc.step(Event::LoginReply { status: 200, token: Some("T1".to_string()) }));
    assert_eq!(lc.phase, Phase::TokenObtained(ExchangeStep::Lookup));
    assert_eq!(list.method, Method::Get);
    assert_eq!(list.url, "http://host:8096/Auth/Keys");
    assert_eq!(list.authorization, "MediaBrowser Token=\"T1\"");

    let create = sent(lc.step(Event::KeysReply { status: 200, keys: Some(vec![]) }));
    assert_eq!(lc.phase, Phase::TokenObtained(ExchangeStep::Create));
    assert_eq!(create.method, Method::Post);
    assert_eq!(create.url, "http://host:8096/Auth/Keys");
    assert_eq!(create.query, vec![("app".to_string(), "JellyRoller".to_string())]);
    assert_eq!(create.body, "");

    let relist = sent(lc.step(Event::CreateReply { status: 204 }));
    assert_eq!(lc.phase, Phase::TokenObtained(ExchangeStep::Relookup));
    assert_eq!(relist.url, "http://host:8096/Auth/Keys");

    let cfg = stored(lc.step(Event::KeysReply { status: 200, keys: Some(vec![item("JellyRoller", "K1")]) }));
    assert_eq!(lc.phase, Phase::KeyExchanged);
    assert_eq!(cfg.status, ConfigStatus::Configured);
    assert_eq!(cfg.server_url, "http://host:8096");
    assert_eq!(cfg.api_key, "K1");
    assert_eq!(cfg.token, TokenKind::ApiKey);
    assert_eq!(cfg.os, "linux");

    assert!(matches!(lc.step(Event::Stored), Action::Done));
    assert_eq!(lc.phase, Phase::Configured);
}

#[test]
fn legacy_record_is_upgraded_without_login() {
    let (mut lc, a) = Lifecycle::start(&legacy_config());
    assert_eq!(lc.phase, Phase::TokenObtained(ExchangeStep::Lookup));
    let list = sent(a);
    assert_eq!(list.url, "http://host:8096/Auth/Keys");
    assert_eq!(list.authorization, "MediaBrowser Token=\"T1\"");
    let keys = vec![item("Other", "X9"), item("JellyRoller", "K1")];
    let cfg = stored(lc.step(Event::KeysReply { status: 200, keys: Some(keys) }));
    assert_eq!(cfg.api_key, "K1");
    assert_eq!(cfg.token, TokenKind::ApiKey);
    assert_eq!(cfg.status, ConfigStatus::Configured);
    assert_eq!(cfg.server_url, "http://host:8096");
}

#[test]
fn rejected_login_stores_nothing() {
    let (mut lc, _) = Lifecycle::start(&AppConfig::default());
    let _ = lc.step(setup("http://host:8096"));
    let a = lc.step(Event::LoginReply { status: 401, token: None });
    assert!(matches!(a, Action::Fail(CliError::Authentication)));
    assert_eq!(lc.phase, Phase::Failed(CliError::Authentication));
    // Nothing later brings the run to a stored record.
    assert!(matches!(lc.step(Event::Stored), Action::Ignored));
    assert!(matches!(lc.step(Event::KeysReply { status: 200, keys: Some(vec![item("JellyRoller", "K1")]) }), Action::Ignored));
}

#[test]
fn stale_key_is_unauthorized() {
    let r: Result<Vec<String>, CliError> = accept(401, Some(vec![]));
    assert_eq!(r, Err(CliError::Authorization));
    let cfg = AppConfig {
        status: ConfigStatus::Configured,
        token: TokenKind::ApiKey,
        api_key: "K1".to_string(),
        ..AppConfig::default()
    };
    let (lc, a) = Lifecycle::start(&cfg);
    assert!(matches!(a, Action::Done));
    assert_eq!(lc.phase, Phase::Configured);
}

#[test]
fn exchange_twice_creates_one_key() {
    let mut server: Vec<TokenItem> = vec![item("Other", "X9")];
    let mut creations = 0;
    for _ in 0..2 {
        let (mut lc, mut a) = Lifecycle::start(&legacy_config());
        let key = loop {
            match a {
                Action::Send(req) => {
                    a = if req.query.is_empty() {
                        let keys = server.iter().map(|t| item(&t.app_name, &t.access_token)).collect();
                        lc.step(Event::KeysReply { status: 200, keys: Some(keys) })
                    } else {
                        creations += 1;
                        server.push(item("JellyRoller", "K1"));
                        lc.step(Event::CreateReply { status: 204 })
                    };
                }
                Action::Store(c) => break c.api_key,
                _ => panic!("unexpected action"),
            }
        };
        assert_eq!(key, "K1");
    }
    assert_eq!(creations, 1);
    assert_eq!(server.len(), 2);
}

#[test]
fn missing_key_after_creation_is_contract_violation() {
    let (mut lc, _) = Lifecycle::start(&legacy_config());
    let _ = lc.step(Event::KeysReply { status: 200, keys: Some(vec![]) });
    let _ = lc.step(Event::CreateReply { status: 204 });
    let a = lc.step(Event::KeysReply { status: 200, keys: Some(vec![item("Other", "X9")]) });
    assert!(matches!(a, Action::Fail(CliError::ContractViolation)));
}

#[test]
fn listing_errors_are_classified() {
    let (mut lc, _) = Lifecycle::start(&legacy_config());
    assert!(matches!(lc.step(Event::KeysReply { status: 500, keys: None }), Action::Fail(CliError::Protocol(500))));
    let (mut lc, _) = Lifecycle::start(&legacy_config());
    assert!(matches!(lc.step(Event::KeysReply { status: 401, keys: None }), Action::Fail(CliError::Authorization)));
    let (mut lc, _) = Lifecycle::start(&legacy_config());
    assert!(matches!(lc.step(Event::KeysReply { status: 200, keys: None }), Action::Fail(CliError::MalformedResponse)));
    let (mut lc, _) = Lifecycle::start(&legacy_config());
    let _ = lc.step(Event::KeysReply { status: 200, keys: Some(vec![]) });
    assert!(matches!(lc.step(Event::CreateReply { status: 500 }), Action::Fail(CliError::Protocol(500))));
}

#[test]
fn login_errors_are_classified() {
    let (mut lc, _) = Lifecycle::start(&AppConfig::default());
    let _ = lc.step(setup("http://h"));
    assert!(matches!(lc.step(Event::LoginReply { status: 500, token: None }), Action::Fail(CliError::Protocol(500))));
    let (mut lc, _) = Lifecycle::start(&AppConfig::default());
    let _ = lc.step(setup("http://h"));
    assert!(matches!(lc.step(Event::LoginReply { status: 200, token: None }), Action::Fail(CliError::MalformedResponse)));
}

#[test]
fn reconfigure_and_logout_from_configured() {
    let cfg = AppConfig {
        status: ConfigStatus::Configured,
        token: TokenKind::ApiKey,
        api_key: "K1".to_string(),
        ..AppConfig::default()
    };
    let (mut lc, _) = Lifecycle::start(&cfg);
    let login = sent(lc.step(setup("http://other:1")));
    assert_eq!(lc.phase, Phase::Authenticating);
    assert_eq!(login.url, "http://other:1/Users/authenticatebyname");

    let (mut lc, _) = Lifecycle::start(&cfg);
    let rec = stored(lc.step(Event::Logout));
    assert_eq!(lc.phase, Phase::NotConfigured);
    assert_eq!(rec.status, ConfigStatus::NotConfigured);
    assert_eq!(rec.api_key, "Unknown");
    assert_eq!(rec.token, TokenKind::Unknown);
}

#[test]
fn not_configured_ignores_replies() {
    let (mut lc, _) = Lifecycle::start(&AppConfig::default());
    assert!(matches!(lc.step(Event::LoginReply { status: 200, token: Some("T".to_string()) }), Action::Ignored));
    assert!(matches!(lc.step(Event::CreateReply { status: 204 }), Action::Ignored));
    assert!(matches!(lc.step(Event::Stored), Action::Ignored));
    assert_eq!(lc.phase, Phase::NotConfigured);
}

#[test]
fn configured_with_empty_key_asks_for_setup() {
    let cfg = AppConfig {
        status: ConfigStatus::Configured,
        token: TokenKind::ApiKey,
        api_key: String::new(),
        ..AppConfig::default()
    };
    let (lc, a) = Lifecycle::start(&cfg);
    assert!(matches!(a, Action::AskForSetup));
    assert_eq!(lc.phase, Phase::NotConfigured);
}

#[test]
fn find_api_key_takes_first_for_client() {
    let keys = vec![item("Other", "X"), item("JellyRoller", "K1"), item("JellyRoller", "K2")];
    assert_eq!(find_api_key(&keys), "K1");
    assert_eq!(find_api_key(&vec![item("Other", "X")]), "");
}

#[test]
fn record_round_trip() {
    let cfg = AppConfig {
        status: ConfigStatus::Configured,
        comfy: false,
        server_url: "http://host:8096".to_string(),
        os: "linux".to_string(),
        api_key: "K1".to_string(),
        token: TokenKind::ApiKey,
    };
    let rec: ConfigRecord = cfg.to_record();
    assert_eq!(rec.status, "configured");
    assert_eq!(rec.token, "apiKey");
    let back = AppConfig::from_record(&rec);
    assert_eq!(back.status, cfg.status);
    assert_eq!(back.comfy, cfg.comfy);
    assert_eq!(back.server_url, cfg.server_url);
    assert_eq!(back.os, cfg.os);
    assert_eq!(back.api_key, cfg.api_key);
    assert_eq!(back.token, cfg.token);

    let d = AppConfig::default().to_record();
    assert_eq!(d.status, "not configured");
    assert_eq!(d.token, "Unknown");
    assert!(d.comfy);
    let back = AppConfig::from_record(&d);
    assert_eq!(back.status, ConfigStatus::NotConfigured);
    assert_eq!(back.token, TokenKind::Unknown);
}

#[test]
fn legacy_token_text_reads_as_unknown() {
    assert_eq!(TokenKind::from_text("authToken"), TokenKind::Unknown);
    assert_eq!(TokenKind::from_text("apiKey"), TokenKind::ApiKey);
    assert_eq!(ConfigStatus::from_text("configured"), ConfigStatus::Configured);
    assert_eq!(ConfigStatus::from_text("Configured"), ConfigStatus::NotConfigured);
}

#[test]
fn setup_state_follows_record() {
    let ready = AppConfig {
        status: ConfigStatus::Configured,
        token: TokenKind::ApiKey,
        api_key: "K1".to_string(),
        ..AppConfig::default()
    };
    let lc = Lifecycle::for_setup(&ready);
    assert_eq!(lc.phase, Phase::Configured);
    assert_eq!(lc.credential, "K1");
    let lc = Lifecycle::for_setup(&legacy_config());
    assert_eq!(lc.phase, Phase::NotConfigured);
    assert_eq!(lc.credential, "");
}
