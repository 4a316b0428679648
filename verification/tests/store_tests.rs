use vaultctx::codec::{initial_store_text, load_store, save_store};
use vaultctx::model::{
    CliNoColor, Config, DisableRedirects, Format, LogLevel, MaxRetries, SharedData, SkipVerify,
};
use vaultctx::store::seed_config;

fn minimal(name: &str, addr: &str, token: &str) -> Config {
    Config {
        name: name.to_string(),
        addr: addr.to_string(),
        token: token.to_string(),
        cacert: None,
        tls_server_name: None,
        capath: None,
        client_cert: None,
        client_key: None,
        client_timeout: None,
        cluster_addr: None,
        format: None,
        license: None,
        license_path: None,
        log_level: None,
        max_retries: None,
        redirect_addr: None,
        skip_verify: None,
        cli_no_color: None,
        rate_limit: None,
        namespace: None,
        srv_lookup: None,
        mfa: None,
        http_proxy: None,
        proxy_addr: None,
        disable_redirects: None,
    }
}

fn full(name: &str) -> Config {
    Config {
        name: name.to_string(),
        addr: "10.0.0.1:8200".to_string(),
        token: "hvs.full".to_string(),
        cacert: Some("ca.crt".to_string()),
        tls_server_name: Some("vault.local".to_string()),
        capath: Some("/etc/ssl/certs".to_string()),
        client_cert: Some("cert.crt".to_string()),
        client_key: Some("cert.key".to_string()),
        client_timeout: Some("30".to_string()),
        cluster_addr: Some("1.1.1.1".to_string()),
        format: Some(Format::Json),
        license: Some("license.lic".to_string()),
        license_path: Some("/etc/vault/license".to_string()),
        log_level: Some(LogLevel::Error),
        max_retries: Some(MaxRetries::Two),
        redirect_addr: Some("1.0.0.1".to_string()),
        skip_verify: Some(SkipVerify::Zero),
        cli_no_color: Some(CliNoColor::True),
        rate_limit: Some("100".to_string()),
        namespace: Some("ns1".to_string()),
        srv_lookup: Some("srv".to_string()),
        mfa: Some("push".to_string()),
        http_proxy: Some("http://proxy:3128".to_string()),
        proxy_addr: Some("proxy.local".to_string()),
        disable_redirects: Some(DisableRedirects::False),
    }
}

#[test]
fn round_trip_minimal_and_full() {
    let configs = vec![minimal("a", "1.1.1.1", "t1"), full("b")];
    let text = save_store(&configs);
    let reloaded = load_store(&text).expect("round trip must parse");
    assert_eq!(reloaded.len(), 2);
    assert!(reloaded[0] == configs[0]);
    assert!(reloaded[1] == configs[1]);
}

#[test]
fn round_trip_awkward_values() {
    let mut c = minimal("it's a name", "addr: with colon", "tok'en''");
    c.namespace = Some("null".to_string());
    c.mfa = Some("".to_string());
    c.cacert = Some("- name: fake".to_string());
    let configs = vec![c];
    let text = save_store(&configs);
    let reloaded = load_store(&text).expect("awkward values must round trip");
    assert_eq!(reloaded.len(), 1);
    assert!(reloaded[0] == configs[0]);
    assert_eq!(reloaded[0].namespace.as_deref(), Some("null"));
    assert_eq!(reloaded[0].mfa.as_deref(), Some(""));
}

#[test]
fn round_trip_empty_store() {
    let configs: Vec<Config> = Vec::new();
    let text = save_store(&configs);
    assert_eq!(text, "");
    let reloaded = load_store(&text).expect("empty store is valid");
    assert!(reloaded.is_empty());
}

#[test]
fn save_store_exact_text() {
    let configs = vec![minimal("a", "1.1.1.1", "t1")];
    let text = save_store(&configs);
    let mut expected = String::new();
    expected.push_str("- name: 'a'\n");
    expected.push_str("  addr: '1.1.1.1'\n");
    expected.push_str("  token: 't1'\n");
    expected.push_str("  cacert: null\n");
    expected.push_str("  tls_server_name: null\n");
    expected.push_str("  capath: null\n");
    expected.push_str("  client_cert: null\n");
    expected.push_str("  client_key: null\n");
    expected.push_str("  client_timeout: null\n");
    expected.push_str("  cluster_addr: null\n");
    expected.push_str("  format: null\n");
    expected.push_str("  license: null\n");
    expected.push_str("  license_path: null\n");
    expected.push_str("  log_level: null\n");
    expected.push_str("  max_retries: null\n");
    expected.push_str("  redirect_addr: null\n");
    expected.push_str("  skip_verify: null\n");
    expected.push_str("  cli_no_color: null\n");
    expected.push_str("  rate_limit: null\n");
    expected.push_str("  namespace: null\n");
    expected.push_str("  srv_lookup: null\n");
    expected.push_str("  mfa: null\n");
    expected.push_str("  http_proxy: null\n");
    expected.push_str("  proxy_addr: null\n");
    expected.push_str("  disable_redirects: null\n");
    assert_eq!(text, expected);
}

#[test]
fn load_rejects_malformed_text() {
    assert!(load_store("nonsense").is_err());
    assert!(load_store("- name: 'a'\n").is_err());
    assert!(load_store("- name: a\n").is_err());
    let configs = vec![minimal("a", "1.1.1.1", "t1")];
    let good = save_store(&configs);
    let truncated = &good[..good.len() - 2];
    assert!(load_store(truncated).is_err());
    let bad_word = good.replace("format: null", "format: csv");
    assert!(load_store(&bad_word).is_err());
}

#[test]
fn enum_words_round_trip_through_store() {
    let mut c = minimal("e", "1.1.1.1", "t");
    c.format = Some(Format::Yaml);
    c.log_level = Some(LogLevel::Error);
    c.max_retries = Some(MaxRetries::Zero);
    c.skip_verify = Some(SkipVerify::One);
    c.cli_no_color = Some(CliNoColor::False);
    c.disable_redirects = Some(DisableRedirects::True);
    let text = save_store(&vec![c]);
    assert!(text.contains("  format: yaml\n"));
    assert!(text.contains("  log_level: err\n"));
    assert!(text.contains("  max_retries: zero\n"));
    assert!(text.contains("  skip_verify: one\n"));
    assert!(text.contains("  cli_no_color: false\n"));
    assert!(text.contains("  disable_redirects: true\n"));
    let reloaded = load_store(&text).unwrap();
    assert!(matches!(reloaded[0].log_level, Some(LogLevel::Error)));
    assert!(matches!(reloaded[0].max_retries, Some(MaxRetries::Zero)));
}

#[test]
fn initial_store_holds_the_seed_profile() {
    let text = initial_store_text();
    let reloaded = load_store(&text).expect("seed store must parse");
    assert_eq!(reloaded.len(), 1);
    assert!(reloaded[0] == seed_config());
    assert_eq!(reloaded[0].name, "dummy_vault");
    assert_eq!(reloaded[0].addr, "127.0.0.1");
    assert_eq!(reloaded[0].token, "hvs.abcdefghijklmnopqrstxyz");
    assert!(matches!(reloaded[0].format, Some(Format::Table)));
    assert!(matches!(reloaded[0].log_level, Some(LogLevel::Info)));
}

#[test]
fn delete_removes_every_entry_with_the_name() {
    let mut data = SharedData {
        configs: vec![
            minimal("a", "1.1.1.1", "t1"),
            minimal("b", "2.2.2.2", "t2"),
            minimal("a", "3.3.3.3", "t3"),
            minimal("c", "4.4.4.4", "t4"),
        ],
    };
    data.delete_by_name("a");
    assert_eq!(data.configs.len(), 2);
    assert_eq!(data.configs[0].name, "b");
    assert_eq!(data.configs[1].name, "c");
}

#[test]
fn delete_of_absent_name_keeps_the_text() {
    let mut data = SharedData {
        configs: vec![minimal("a", "1.1.1.1", "t1"), minimal("b", "2.2.2.2", "t2")],
    };
    let before = save_store(&data.configs);
    data.delete_by_name("zzz");
    let after = save_store(&data.configs);
    assert_eq!(before, after);
}

#[test]
fn rename_updates_only_the_first_match() {
    let mut data = SharedData {
        configs: vec![
            minimal("a", "1.1.1.1", "t1"),
            minimal("b", "2.2.2.2", "t2"),
            minimal("a", "3.3.3.3", "t3"),
        ],
    };
    let renamed = data.rename_by_name("a", "z");
    assert!(renamed);
    assert_eq!(data.configs[0].name, "z");
    assert_eq!(data.configs[0].addr, "1.1.1.1");
    assert_eq!(data.configs[1].name, "b");
    assert_eq!(data.configs[2].name, "a");
}

#[test]
fn rename_of_absent_name_changes_nothing() {
    let mut data = SharedData {
        configs: vec![minimal("a", "1.1.1.1", "t1")],
    };
    let before = save_store(&data.configs);
    let renamed = data.rename_by_name("nope", "z");
    assert!(!renamed);
    assert_eq!(save_store(&data.configs), before);
}

#[test]
fn find_returns_the_first_match() {
    let data = SharedData {
        configs: vec![
            minimal("a", "1.1.1.1", "t1"),
            minimal("b", "2.2.2.2", "t2"),
            minimal("b", "3.3.3.3", "t3"),
        ],
    };
    let found = data.find_by_name("b").expect("b exists");
    assert_eq!(found.addr, "2.2.2.2");
    assert!(data.find_by_name("zzz").is_none());
}
