use api_gateway::config::{
    check_cors_origin, check_upstream_url, default_cors_origins, default_host, default_port,
    default_timeout_ms, default_upstreams, upstream_fault_of, AppConfig, AppConfigRaw, ConfigError,
    MAX_REQUEST_TIMEOUT_MS,
};
use api_gateway::upstreams::Upstreams;
use std::time::Duration;

fn raw_with(port: u16, request_timeout_ms: u64) -> AppConfigRaw {
    AppConfigRaw { port, request_timeout_ms, ..AppConfigRaw::default() }
}

fn upstreams_of(pairs: &[(&str, &str)]) -> Upstreams {
    let mut upstreams = Upstreams::new();
    for (name, url) in pairs {
        upstreams.insert(name.to_string(), url.to_string());
    }
    upstreams
}

#[test]
fn test_config_defaults_only() {
    let config =
        AppConfig::validate_and_convert(AppConfigRaw::default()).expect("Failed to load config");

    assert_eq!(config.host, "");
    assert_eq!(config.port, 3000);
    assert_eq!(config.request_timeout_ms, 15000);
    assert_eq!(config.cors_origins, vec!["*"]);
    assert!(config.upstreams.is_empty());
}

#[test]
fn test_config_file_overrides_defaults() {
    let raw = AppConfigRaw {
        host: "file.example.com".to_string(),
        port: 4000,
        request_timeout_ms: 20000,
        upstreams: upstreams_of(&[("file_service", "http://file-service:3001")]),
        cors_origins: vec!["https://file.example.com".to_string()],
    };
    let config = AppConfig::validate_and_convert(raw).expect("Failed to load config");

    assert_eq!(config.host, "file.example.com");
    assert_eq!(config.port, 4000);
    assert_eq!(config.request_timeout_ms, 20000);
    assert_eq!(config.cors_origins, vec!["https://file.example.com"]);

    let mut expected_upstreams = Upstreams::new();
    expected_upstreams
        .insert("file_service".to_string(), "http://file-service:3001".to_string());
    assert_eq!(config.upstreams, expected_upstreams);
}

#[test]
fn test_config_validation_errors() {
    let result = AppConfig::validate_and_convert(raw_with(0, 15000));
    assert!(result.is_err(), "Expected error for invalid port 0");
    assert!(result.unwrap_err().to_string().contains("Invalid port"));

    let result = AppConfig::validate_and_convert(raw_with(3000, 0));
    match result {
        Ok(config) => {
            println!("Config loaded successfully with timeout: {}", config.request_timeout_ms);
            panic!(
                "Expected error for invalid timeout 0ms, but got: {}",
                config.request_timeout_ms
            );
        }
        Err(e) => {
            println!("Got expected error: {}", e.to_string());
            assert!(e.to_string().contains("Invalid timeout"));
        }
    }

    let raw = AppConfigRaw {
        upstreams: upstreams_of(&[("invalid_service", "not-a-url")]),
        ..AppConfigRaw::default()
    };
    let result = AppConfig::validate_and_convert(raw);
    assert!(result.is_err(), "Expected error for invalid upstream URL");
    assert!(result.unwrap_err().to_string().contains("Invalid upstream URL"));
}

#[test]
fn test_config_file_validation_errors() {
    let raw = AppConfigRaw {
        host: "file.example.com".to_string(),
        port: 0,
        request_timeout_ms: 0,
        upstreams: upstreams_of(&[("invalid_service", "not-a-url")]),
        cors_origins: vec!["".to_string()],
    };
    let result = AppConfig::validate_and_convert(raw);

    assert!(result.is_err(), "Expected validation error for invalid config file");
    let error = result.unwrap_err();
    let error_msg = error.to_string();

    assert!(
        error_msg.contains("Invalid") || error_msg.contains("invalid"),
        "Error message should indicate validation failure: {}",
        error_msg
    );
    assert_eq!(error, ConfigError::InvalidPort(0));
}

#[test]
fn defaults_one_by_one() {
    assert_eq!(default_host(), "");
    assert_eq!(default_port(), 3000);
    assert_eq!(default_timeout_ms(), 15000);
    assert!(default_upstreams().is_empty());
    assert_eq!(default_upstreams().len(), 0);
    assert_eq!(default_cors_origins(), vec!["*".to_string()]);
    assert_eq!(MAX_REQUEST_TIMEOUT_MS, 300000);
}

#[test]
fn defaults_end_to_end_render_all_interfaces() {
    let config = AppConfig::validate_and_convert(AppConfigRaw::default()).unwrap();
    assert_eq!(config.host, "");
    assert_eq!(config.port, 3000);
    assert_eq!(config.request_timeout_ms, 15000);
    assert_eq!(config.cors_origins, vec!["*".to_string()]);
    assert!(config.upstreams.is_empty());
    assert_eq!(config.addr(), "0.0.0.0:3000");
}

#[test]
fn port_zero_is_refused_whatever_else_holds() {
    assert_eq!(
        AppConfig::validate_and_convert(raw_with(0, 15000)).unwrap_err(),
        ConfigError::InvalidPort(0)
    );
    let raw = AppConfigRaw {
        port: 0,
        request_timeout_ms: 999_999,
        upstreams: upstreams_of(&[("a", "::")]),
        cors_origins: vec!["".to_string()],
        host: "h".to_string(),
    };
    assert_eq!(AppConfig::validate_and_convert(raw).unwrap_err(), ConfigError::InvalidPort(0));
}

#[test]
fn every_other_port_is_accepted() {
    for port in [1u16, 2, 80, 3000, 65534, 65535] {
        let config = AppConfig::validate_and_convert(raw_with(port, 15000)).unwrap();
        assert_eq!(config.port, port);
    }
}

#[test]
fn timeout_bounds() {
    assert_eq!(
        AppConfig::validate_and_convert(raw_with(3000, 0)).unwrap_err(),
        ConfigError::InvalidTimeout(0)
    );
    assert_eq!(
        AppConfig::validate_and_convert(raw_with(3000, 300001)).unwrap_err(),
        ConfigError::InvalidTimeout(300001)
    );
    assert_eq!(
        AppConfig::validate_and_convert(raw_with(3000, u64::MAX)).unwrap_err(),
        ConfigError::InvalidTimeout(u64::MAX)
    );
    assert_eq!(AppConfig::validate_and_convert(raw_with(3000, 1)).unwrap().request_timeout_ms, 1);
    assert_eq!(
        AppConfig::validate_and_convert(raw_with(3000, 300000)).unwrap().request_timeout_ms,
        300000
    );
}

#[test]
fn port_is_judged_before_timeout() {
    assert_eq!(
        AppConfig::validate_and_convert(raw_with(0, 0)).unwrap_err(),
        ConfigError::InvalidPort(0)
    );
}

#[test]
fn upstream_that_does_not_parse_is_refused_by_name() {
    let raw = AppConfigRaw {
        upstreams: upstreams_of(&[("users", "http://users:8080"), ("orders", "not-a-url")]),
        ..AppConfigRaw::default()
    };
    assert_eq!(
        AppConfig::validate_and_convert(raw).unwrap_err(),
        ConfigError::InvalidUpstreamUrl(
            "orders".to_string(),
            "Invalid URL format: relative URL without a base".to_string()
        )
    );
}

#[test]
fn upstream_with_another_scheme_is_refused_by_name() {
    let raw = AppConfigRaw {
        upstreams: upstreams_of(&[("files", "ftp://files.internal/pub")]),
        ..AppConfigRaw::default()
    };
    assert_eq!(
        AppConfig::validate_and_convert(raw).unwrap_err(),
        ConfigError::InvalidUpstreamUrl(
            "files".to_string(),
            "URL must use http or https scheme".to_string()
        )
    );
}

#[test]
fn first_refused_upstream_is_reported() {
    let raw = AppConfigRaw {
        upstreams: upstreams_of(&[
            ("good", "https://good.example"),
            ("second", "ftp://second.example"),
            ("third", "not-a-url"),
        ]),
        ..AppConfigRaw::default()
    };
    assert_eq!(
        AppConfig::validate_and_convert(raw).unwrap_err(),
        ConfigError::InvalidUpstreamUrl(
            "second".to_string(),
            "URL must use http or https scheme".to_string()
        )
    );
}

#[test]
fn upstreams_are_judged_before_origins() {
    let raw = AppConfigRaw {
        upstreams: upstreams_of(&[("bad", "http://")]),
        cors_origins: vec!["".to_string()],
        ..AppConfigRaw::default()
    };
    assert_eq!(
        AppConfig::validate_and_convert(raw).unwrap_err(),
        ConfigError::InvalidUpstreamUrl(
            "bad".to_string(),
            "Invalid URL format: empty host".to_string()
        )
    );
}

#[test]
fn http_and_https_upstreams_are_accepted() {
    let raw = AppConfigRaw {
        upstreams: upstreams_of(&[
            ("plain", "http://plain.example:8080/base"),
            ("tls", "HTTPS://tls.example"),
        ]),
        ..AppConfigRaw::default()
    };
    let config = AppConfig::validate_and_convert(raw).unwrap();
    assert_eq!(config.upstreams.len(), 2);
    assert_eq!(
        config.get_upstream_url("plain"),
        Some(&"http://plain.example:8080/base".to_string())
    );
    assert_eq!(config.get_upstream_url("tls"), Some(&"HTTPS://tls.example".to_string()));
    assert_eq!(config.get_upstream_url("absent"), None);
}

#[test]
fn check_upstream_url_gives_the_reason() {
    assert_eq!(check_upstream_url("http://localhost:3001"), None);
    assert_eq!(check_upstream_url("https://example.com/api"), None);
    assert_eq!(
        check_upstream_url("ws://example.com"),
        Some("URL must use http or https scheme".to_string())
    );
    assert_eq!(
        check_upstream_url("mailto:someone@example.com"),
        Some("URL must use http or https scheme".to_string())
    );
    assert_eq!(
        check_upstream_url("not-a-url"),
        Some("Invalid URL format: relative URL without a base".to_string())
    );
    assert_eq!(
        check_upstream_url("http://example.com:99999"),
        Some("Invalid URL format: invalid port number".to_string())
    );
    assert_eq!(
        check_upstream_url(""),
        Some("Invalid URL format: relative URL without a base".to_string())
    );
}

#[test]
fn upstream_fault_of_judges_a_parse_outcome() {
    assert_eq!(upstream_fault_of(Ok("http".to_string())), None);
    assert_eq!(upstream_fault_of(Ok("https".to_string())), None);
    assert_eq!(
        upstream_fault_of(Ok("ftp".to_string())),
        Some("URL must use http or https scheme".to_string())
    );
    assert_eq!(
        upstream_fault_of(Ok("httpx".to_string())),
        Some("URL must use http or https scheme".to_string())
    );
    assert_eq!(
        upstream_fault_of(Ok("".to_string())),
        Some("URL must use http or https scheme".to_string())
    );
    assert_eq!(
        upstream_fault_of(Err("empty host".to_string())),
        Some("Invalid URL format: empty host".to_string())
    );
    assert_eq!(
        upstream_fault_of(Err("".to_string())),
        Some("Invalid URL format: ".to_string())
    );
}

#[test]
fn empty_origin_is_refused() {
    let raw = AppConfigRaw { cors_origins: vec!["".to_string()], ..AppConfigRaw::default() };
    assert_eq!(
        AppConfig::validate_and_convert(raw).unwrap_err(),
        ConfigError::InvalidCorsOrigin("".to_string())
    );
    assert!(!check_cors_origin(""));
}

#[test]
fn wildcard_origin_is_always_accepted() {
    assert!(check_cors_origin("*"));
    let raw = AppConfigRaw {
        cors_origins: vec!["*".to_string(), "https://app.example.com".to_string()],
        ..AppConfigRaw::default()
    };
    let config = AppConfig::validate_and_convert(raw).unwrap();
    assert_eq!(config.cors_origins, vec!["*", "https://app.example.com"]);
}

#[test]
fn other_origins_must_parse_as_urls() {
    assert!(check_cors_origin("https://app.example.com"));
    assert!(check_cors_origin("http://localhost:3000"));
    assert!(check_cors_origin("custom-scheme://host"));
    assert!(!check_cors_origin("app.example.com"));
    assert!(!check_cors_origin("**"));
    assert!(!check_cors_origin(" "));

    let raw = AppConfigRaw {
        cors_origins: vec!["https://ok.example".to_string(), "nonsense".to_string(), "".to_string()],
        ..AppConfigRaw::default()
    };
    assert_eq!(
        AppConfig::validate_and_convert(raw).unwrap_err(),
        ConfigError::InvalidCorsOrigin("nonsense".to_string())
    );
}

#[test]
fn empty_origin_list_is_accepted() {
    let raw = AppConfigRaw { cors_origins: vec![], ..AppConfigRaw::default() };
    let config = AppConfig::validate_and_convert(raw).unwrap();
    assert!(config.cors_origins.is_empty());
}

#[test]
fn validation_hands_the_values_on_unchanged() {
    let raw = AppConfigRaw {
        host: "127.0.0.1".to_string(),
        port: 8080,
        request_timeout_ms: 2500,
        upstreams: upstreams_of(&[("a", "http://a"), ("b", "https://b")]),
        cors_origins: vec!["https://one.example".to_string(), "https://two.example".to_string()],
    };
    let expected = raw.clone();
    let config = AppConfig::validate_and_convert(raw).unwrap();
    assert_eq!(config.host, expected.host);
    assert_eq!(config.port, expected.port);
    assert_eq!(config.request_timeout_ms, expected.request_timeout_ms);
    assert_eq!(config.upstreams, expected.upstreams);
    assert_eq!(config.upstreams.name_at(0), "a");
    assert_eq!(config.upstreams.name_at(1), "b");
    assert_eq!(config.cors_origins, expected.cors_origins);
}

#[test]
fn addr_renders_host_and_port() {
    let config = AppConfig::validate_and_convert(AppConfigRaw {
        host: "127.0.0.1".to_string(),
        port: 8080,
        ..AppConfigRaw::default()
    })
    .unwrap();
    assert_eq!(config.addr(), "127.0.0.1:8080");

    let config = AppConfig::validate_and_convert(raw_with(65535, 1)).unwrap();
    assert_eq!(config.addr(), "0.0.0.0:65535");

    let config = AppConfig::validate_and_convert(AppConfigRaw {
        host: "gateway.internal".to_string(),
        port: 1,
        ..AppConfigRaw::default()
    })
    .unwrap();
    assert_eq!(config.addr(), "gateway.internal:1");
}

#[test]
fn timeout_duration_is_the_timeout_in_milliseconds() {
    let config = AppConfig::validate_and_convert(AppConfigRaw::default()).unwrap();
    assert_eq!(config.timeout_duration(), Duration::from_millis(15000));
    assert_eq!(config.timeout_duration().as_millis(), 15000);

    let config = AppConfig::validate_and_convert(raw_with(3000, 1)).unwrap();
    assert_eq!(config.timeout_duration(), Duration::from_millis(1));

    let config = AppConfig::validate_and_convert(raw_with(3000, 300000)).unwrap();
    assert_eq!(config.timeout_duration(), Duration::from_secs(300));
}

#[test]
fn get_upstream_url_finds_configured_services_only() {
    let raw = AppConfigRaw {
        upstreams: upstreams_of(&[
            ("users", "http://users:8080"),
            ("orders", "https://orders.internal"),
        ]),
        ..AppConfigRaw::default()
    };
    let config = AppConfig::validate_and_convert(raw).unwrap();
    assert_eq!(config.get_upstream_url("users"), Some(&"http://users:8080".to_string()));
    assert_eq!(config.get_upstream_url("orders"), Some(&"https://orders.internal".to_string()));
    assert_eq!(config.get_upstream_url("Users"), None);
    assert_eq!(config.get_upstream_url(""), None);
}

#[test]
fn error_messages() {
    assert_eq!(ConfigError::Config("missing field".to_string()).to_string(), "missing field");
    assert_eq!(
        ConfigError::Message("oops".to_string()).to_string(),
        "Configuration error: oops"
    );
    assert_eq!(
        ConfigError::InvalidPort(0).to_string(),
        "Invalid port number: 0. Must be between 1 and 65535"
    );
    assert_eq!(
        ConfigError::InvalidTimeout(300001).to_string(),
        "Invalid timeout: 300001ms. Must be between 1 and 300000ms (5 minutes)"
    );
    assert_eq!(
        ConfigError::InvalidUpstreamUrl("users".to_string(), "bad".to_string()).to_string(),
        "Invalid upstream URL for service 'users': bad"
    );
    assert_eq!(
        ConfigError::InvalidCorsOrigin("nonsense".to_string()).to_string(),
        "Invalid CORS origin: nonsense"
    );
}

#[test]
fn violations_lists_every_broken_rule_in_order() {
    let raw = AppConfigRaw {
        host: "file.example.com".to_string(),
        port: 0,
        request_timeout_ms: 0,
        upstreams: upstreams_of(&[
            ("good", "http://good.example"),
            ("invalid_service", "not-a-url"),
            ("files", "ftp://files.example"),
        ]),
        cors_origins: vec![
            "".to_string(),
            "*".to_string(),
            "nonsense".to_string(),
            "https://ok.example".to_string(),
        ],
    };
    assert_eq!(
        raw.violations(),
        vec![
            ConfigError::InvalidPort(0),
            ConfigError::InvalidTimeout(0),
            ConfigError::InvalidUpstreamUrl(
                "invalid_service".to_string(),
                "Invalid URL format: relative URL without a base".to_string()
            ),
            ConfigError::InvalidUpstreamUrl(
                "files".to_string(),
                "URL must use http or https scheme".to_string()
            ),
            ConfigError::InvalidCorsOrigin("".to_string()),
            ConfigError::InvalidCorsOrigin("nonsense".to_string()),
        ]
    );
    let first = raw.violations().remove(0);
    assert_eq!(AppConfig::validate_and_convert(raw).unwrap_err(), first);
}

#[test]
fn violations_is_empty_where_validation_succeeds() {
    assert_eq!(AppConfigRaw::default().violations(), vec![]);
    let raw = AppConfigRaw {
        host: "127.0.0.1".to_string(),
        port: 65535,
        request_timeout_ms: 300000,
        upstreams: upstreams_of(&[("a", "http://a"), ("b", "https://b")]),
        cors_origins: vec!["https://one.example".to_string()],
    };
    assert!(raw.violations().is_empty());
    assert!(AppConfig::validate_and_convert(raw).is_ok());
}

#[test]
fn violations_starts_with_the_error_of_validation() {
    let cases = vec![
        raw_with(0, 15000),
        raw_with(3000, 300001),
        AppConfigRaw {
            request_timeout_ms: 400000,
            cors_origins: vec!["".to_string()],
            ..AppConfigRaw::default()
        },
        AppConfigRaw {
            upstreams: upstreams_of(&[("x", "http://"), ("y", "gopher://y")]),
            cors_origins: vec!["?".to_string()],
            ..AppConfigRaw::default()
        },
        AppConfigRaw { cors_origins: vec!["?".to_string()], ..AppConfigRaw::default() },
    ];
    for raw in cases {
        let found = raw.violations();
        assert!(!found.is_empty());
        assert_eq!(AppConfig::validate_and_convert(raw).unwrap_err(), found[0]);
    }
}
