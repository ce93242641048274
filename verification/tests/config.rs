use backend_supervisor::config::{
    backend_auth_token, backend_base_url, backend_endpoint, backend_entry, backend_host,
    backend_port, below, environment_value, get_backend_config, is_release_build, parse_port,
    DEFAULT_PORT,
};

fn pair(key: &str, value: &str) -> (String, String) {
    (key.to_string(), value.to_string())
}

#[test]
fn release_build_is_one_without_source_tree() {
    assert!(is_release_build(false));
    assert!(!is_release_build(true));
}

#[test]
fn host_defaults_to_loopback() {
    assert_eq!(backend_host(None), "127.0.0.1");
    assert_eq!(backend_host(Some("0.0.0.0".to_string())), "0.0.0.0");
    assert_eq!(backend_host(Some(String::new())), "");
}

#[test]
fn port_defaults_to_3000() {
    assert_eq!(DEFAULT_PORT, 3000);
    assert_eq!(backend_port(None), 3000);
    assert_eq!(backend_port(Some("8080")), 8080);
    assert_eq!(backend_port(Some("not a port")), 3000);
    assert_eq!(backend_port(Some("")), 3000);
    assert_eq!(backend_port(Some("65536")), 3000);
    assert_eq!(backend_port(Some("65535")), 65535);
    assert_eq!(backend_port(Some("0")), 0);
    assert_eq!(backend_port(Some(" 8080")), 3000);
    assert_eq!(backend_port(Some("+8080")), 8080);
    assert_eq!(backend_port(Some("-1")), 3000);
}

#[test]
fn parse_port_agrees_with_the_standard_parser() {
    let texts = [
        "", "0", "1", "80", "3000", "65535", "65536", "99999", "000080", "+80", "++80", "-80",
        "-0", "+", "-", " 80", "80 ", "8 0", "80a", "a80", "0x50", "8_0", "٨٠", "4294967376",
        "18446744073709551696", "00000000000000000000000000000065535",
    ];
    for text in texts {
        assert_eq!(parse_port(text), text.parse::<u16>().ok(), "{:?}", text);
    }
}

#[test]
fn base_url_is_scheme_host_and_port() {
    assert_eq!(backend_base_url("127.0.0.1", 3000), "http://127.0.0.1:3000");
    assert_eq!(backend_base_url("localhost", 65535), "http://localhost:65535");
    assert_eq!(backend_base_url("h", 0), "http://h:0");
    for port in [0u16, 7, 10, 99, 100, 1000, 9999, 10000, 65535] {
        assert_eq!(backend_base_url("example.org", port), format!("http://{}:{}", "example.org", port));
    }
}

#[test]
fn empty_token_is_no_token() {
    assert_eq!(backend_auth_token(None), None);
    assert_eq!(backend_auth_token(Some(String::new())), None);
    assert_eq!(backend_auth_token(Some("token-value".to_string())), Some("token-value".to_string()));
    assert_eq!(backend_auth_token(Some(" ".to_string())), Some(" ".to_string()));
}

#[test]
fn config_query_with_defaults() {
    let config = get_backend_config(None, None, None);
    assert_eq!(config.base_url, "http://127.0.0.1:3000");
    assert_eq!(config.auth_token, None);
}

#[test]
fn config_query_with_settings() {
    let config =
        get_backend_config(Some("10.0.0.5".to_string()), Some("4000"), Some("t0k3n".to_string()));
    assert_eq!(config.base_url, "http://10.0.0.5:4000");
    assert_eq!(config.auth_token, Some("t0k3n".to_string()));
    let config = get_backend_config(Some("10.0.0.5".to_string()), Some("x"), Some(String::new()));
    assert_eq!(config.base_url, "http://10.0.0.5:3000");
    assert_eq!(config.auth_token, None);
}

#[test]
fn entry_path_lies_below_the_bundle_directory() {
    assert_eq!(backend_entry("/app"), "/app/dist/index.js");
    assert_eq!(backend_entry("/app/"), "/app/dist/index.js");
    assert_eq!(backend_entry(""), "dist/index.js");
    assert_eq!(backend_entry("/"), "/dist/index.js");
    assert_eq!(backend_entry("relative/dir"), "relative/dir/dist/index.js");
}

#[test]
fn below_agrees_with_path_join() {
    for dir in ["", "/", "/app", "/app/", "a", "a/b", "a/b//", "/Applications/My App.app/Contents"] {
        for relative in ["dist/index.js", "container-agno", "store", ".env"] {
            let expected = std::path::Path::new(dir).join(relative);
            assert_eq!(below(dir, relative), expected.to_string_lossy(), "{:?} {:?}", dir, relative);
        }
    }
}

#[test]
fn endpoint_holds_what_a_spawn_needs() {
    let user_env = vec![pair("ANTHROPIC_API_KEY", "k"), pair("NANOCLAW_DATA_DIR", "/elsewhere")];
    let endpoint =
        backend_endpoint("/bundle", "/data", "127.0.0.1".to_string(), 3000, user_env);
    assert_eq!(endpoint.host, "127.0.0.1");
    assert_eq!(endpoint.port, 3000);
    assert_eq!(endpoint.entry_path, "/bundle/dist/index.js");
    assert_eq!(endpoint.working_directory, "/data");
    assert_eq!(
        endpoint.environment_overrides,
        vec![
            pair("NANOCLAW_BUNDLE_DIR", "/bundle"),
            pair("NANOCLAW_DATA_DIR", "/data"),
            pair("ANTHROPIC_API_KEY", "k"),
            pair("NANOCLAW_DATA_DIR", "/elsewhere"),
        ]
    );
    assert_eq!(
        environment_value(&endpoint.environment_overrides, "NANOCLAW_DATA_DIR"),
        Some("/elsewhere".to_string())
    );
    assert_eq!(
        environment_value(&endpoint.environment_overrides, "NANOCLAW_BUNDLE_DIR"),
        Some("/bundle".to_string())
    );
    assert_eq!(environment_value(&endpoint.environment_overrides, "PATH"), None);
}

#[test]
fn later_setting_wins() {
    let settings = vec![pair("A", "1"), pair("B", "2"), pair("A", "3"), pair("a", "4")];
    assert_eq!(environment_value(&settings, "A"), Some("3".to_string()));
    assert_eq!(environment_value(&settings, "B"), Some("2".to_string()));
    assert_eq!(environment_value(&settings, "a"), Some("4".to_string()));
    assert_eq!(environment_value(&settings, "C"), None);
    assert_eq!(environment_value(&Vec::new(), "A"), None);
}
