use yubico_online::{Config, ConfigError, SyncVerifier, VerificationRequest, YubicoError};

#[test]
fn empty_endpoint_list_is_a_configuration_error() {
    let config = Config::default().set_api_hosts(vec![]);
    let r = SyncVerifier::new(config);
    assert!(matches!(r, Err(YubicoError::Configuration(ConfigError::EmptyEndpoints))));
}

#[test]
fn malformed_user_agent_is_a_configuration_error() {
    for agent in ["bad\nagent", "bad\u{7f}agent", "nul\u{0}"] {
        let config = Config::default().set_user_agent(agent.to_string());
        let r = SyncVerifier::new(config);
        assert!(matches!(r, Err(YubicoError::Configuration(ConfigError::InvalidUserAgent))));
    }
}

#[test]
fn acceptable_user_agents_build() {
    for agent in ["my-agent/1.0", "tab\tseparated", "caf\u{e9}", ""] {
        let config = Config::default().set_user_agent(agent.to_string());
        let verifier = SyncVerifier::new(config).unwrap();
        assert_eq!(verifier.config().user_agent, agent);
    }
}

#[test]
fn default_configuration() {
    let config = Config::default();
    assert_eq!(config.api_hosts.len(), 5);
    for (i, host) in config.api_hosts.iter().enumerate() {
        let expected = if i == 0 {
            "https://api.yubico.com/wsapi/2.0/verify".to_string()
        } else {
            format!("https://api{}.yubico.com/wsapi/2.0/verify", i + 1)
        };
        assert_eq!(*host, expected);
    }
    assert_eq!(config.user_agent, "github.com/wisespace-io/yubico-rs");
    assert_eq!(config.request_timeout_ms, 30000);
    assert!(config.client_id.is_empty());
    assert!(!config.user_agent.is_empty());
}

#[test]
fn setters_replace_one_field() {
    let config = Config::default()
        .set_client_id("CLIENT_ID".to_string())
        .set_key("API_KEY".to_string())
        .set_request_timeout_ms(500)
        .set_api_hosts(vec!["https://api.example.com/verify".to_string()]);
    assert_eq!(config.client_id, "CLIENT_ID");
    assert_eq!(config.key, "API_KEY");
    assert_eq!(config.request_timeout_ms, 500);
    assert_eq!(config.api_hosts, vec!["https://api.example.com/verify".to_string()]);
}

#[test]
fn one_url_per_endpoint_in_order() {
    let hosts = vec![
        "https://one.example/verify".to_string(),
        "https://two.example/verify".to_string(),
        "https://three.example/verify".to_string(),
    ];
    let config = Config::default().set_api_hosts(hosts);
    let verifier = SyncVerifier::new(config).unwrap();
    let request = VerificationRequest::new(
        "cccccc".to_string(),
        "n0nce".to_string(),
        "id=1&otp=cccccc&nonce=n0nce".to_string(),
    );
    let urls = verifier.endpoint_urls(&request);
    assert_eq!(
        urls,
        vec![
            "https://one.example/verify?id=1&otp=cccccc&nonce=n0nce".to_string(),
            "https://two.example/verify?id=1&otp=cccccc&nonce=n0nce".to_string(),
            "https://three.example/verify?id=1&otp=cccccc&nonce=n0nce".to_string(),
        ]
    );
    let aggregation = verifier.start_aggregation();
    assert_eq!(aggregation.received(), 0);
    assert!(!aggregation.is_resolved());
}

#[test]
fn build_url_appends_query() {
    let request = VerificationRequest::new("o".to_string(), "n".to_string(), "a=1&b=2".to_string());
    assert_eq!(request.build_url("http://h/p"), "http://h/p?a=1&b=2");
    assert_eq!(request.build_url(""), "?a=1&b=2");
}

#[test]
fn error_messages() {
    assert!(YubicoError::Configuration(ConfigError::EmptyEndpoints).is_configuration());
    assert!(!YubicoError::ChannelError.is_configuration());
    assert_eq!(YubicoError::Transport("down".to_string()).message(), "transport error: down");
    assert_eq!(YubicoError::Validation("BAD_OTP".to_string()).message(), "validation error: BAD_OTP");
    assert_eq!(YubicoError::ChannelError.message(), "channel error");
    assert_eq!(
        YubicoError::RequestBuild("bad otp".to_string()).message(),
        "request build error: bad otp"
    );
    assert_eq!(
        YubicoError::Configuration(ConfigError::InvalidUserAgent).message(),
        "configuration error: invalid user agent"
    );
}
