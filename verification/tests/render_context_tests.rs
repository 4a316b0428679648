use vaultctx::cli::{action_of, Action, Args};
use vaultctx::context::{current_context_of, plan_recall, plan_select};
use vaultctx::model::{
    CliNoColor, Config, DisableRedirects, Format, LogLevel, MaxRetries, RenameArgs, SharedData,
    SkipVerify,
};
use vaultctx::render::render;
use vaultctx::shell::{contains_sub, ensure_sourced, vctx_source_line};

fn minimal(name: &str, addr: &str, token: &str) -> Config {
    Config {
        name: name.to_string(),
        addr: addr.to_string(),
        token: token.to_string(),
        cacert: None,
        tls_server_name: None,
        capath: None,
        client_cert: None,
        client_key: None,
        client_timeout: None,
        cluster_addr: None,
        format: None,
        license: None,
        license_path: None,
        log_level: None,
        max_retries: None,
        redirect_addr: None,
        skip_verify: None,
        cli_no_color: None,
        rate_limit: None,
        namespace: None,
        srv_lookup: None,
        mfa: None,
        http_proxy: None,
        proxy_addr: None,
        disable_redirects: None,
    }
}

#[test]
fn render_minimal_is_exactly_three_lines() {
    let c = minimal("a", "1.1.1.1", "t1");
    let out = render(&c);
    assert_eq!(out, "export VAULT_CONTEXT='a'\nexport VAULT_ADDR='1.1.1.1'\nexport VAULT_TOKEN='t1'\n");
    assert_eq!(out.lines().count(), 3);
}

#[test]
fn render_full_is_every_line_in_the_fixed_order() {
    let c = Config {
        name: "n".to_string(),
        addr: "a".to_string(),
        token: "t".to_string(),
        cacert: Some("c1".to_string()),
        tls_server_name: Some("c2".to_string()),
        capath: Some("c3".to_string()),
        client_cert: Some("c4".to_string()),
        client_key: Some("c5".to_string()),
        client_timeout: Some("c6".to_string()),
        cluster_addr: Some("c7".to_string()),
        format: Some(Format::Table),
        license: Some("c8".to_string()),
        license_path: Some("c9".to_string()),
        log_level: Some(LogLevel::Error),
        max_retries: Some(MaxRetries::Two),
        redirect_addr: Some("c10".to_string()),
        skip_verify: Some(SkipVerify::Zero),
        cli_no_color: Some(CliNoColor::One),
        rate_limit: Some("c11".to_string()),
        namespace: Some("c12".to_string()),
        srv_lookup: Some("c13".to_string()),
        mfa: Some("c14".to_string()),
        http_proxy: Some("c15".to_string()),
        proxy_addr: Some("c16".to_string()),
        disable_redirects: Some(DisableRedirects::False),
    };
    let out = render(&c);
    let lines: Vec<&str> = out.lines().collect();
    let expected = vec![
        "export VAULT_CONTEXT='n'",
        "export VAULT_ADDR='a'",
        "export VAULT_TOKEN='t'",
        "export VAULT_CACERT='c1'",
        "export VAULT_TLS_SERVER_NAME='c2'",
        "export VAULT_CAPATH='c3'",
        "export VAULT_CLIENT_CERT='c4'",
        "export VAULT_CLIENT_KEY='c5'",
        "export VAULT_CLIENT_TIMEOUT='c6'",
        "export VAULT_CLUSTER_ADDR='c7'",
        "export VAULT_FORMAT='table'",
        "export VAULT_LICENCE='c8'",
        "export VAULT_LICENCE_PATH='c9'",
        "export VAULT_LOG_LEVEL='error'",
        "export VAULT_MAX_RETRIES='2'",
        "export VAULT_REDIRECT_ADDR='c10'",
        "export VAULT_SKIP_VERIFY='0'",
        "export VAULT_CLI_NO_COLOR='1'",
        "export VAULT_RATE_LIMIT='c11'",
        "export VAULT_NAMESPACE='c12'",
        "export VAULT_SRV_LOOKUP='c13'",
        "export VAULT_MFA='c14'",
        "export VAULT_HTTP_PROXY='c15'",
        "export VAULT_PROXY_ADDR='c16'",
        "export VAULT_DISABLE_REDIRECTS='false'",
    ];
    assert_eq!(lines, expected);
}

#[test]
fn render_values_are_not_escaped() {
    let c = minimal("a", "1.1.1.1", "it's");
    let out = render(&c);
    assert!(out.contains("export VAULT_TOKEN='it's'\n"));
}

#[test]
fn enum_render_and_storage_forms() {
    assert_eq!(LogLevel::Error.storage_word(), "err");
    assert_eq!(LogLevel::Error.render_value(), "error");
    assert_eq!(LogLevel::Warn.render_value(), "warn");
    assert_eq!(MaxRetries::Zero.storage_word(), "zero");
    assert_eq!(MaxRetries::Zero.render_value(), "0");
    assert_eq!(SkipVerify::One.render_value(), "1");
    assert_eq!(SkipVerify::True.render_value(), "true");
    assert_eq!(DisableRedirects::Zero.render_value(), "0");
    assert_eq!(CliNoColor::False.render_value(), "false");
    assert_eq!(Format::Yaml.render_value(), "yaml");
    assert!(matches!(Format::from_word("json"), Some(Format::Json)));
    assert!(Format::from_word("csv").is_none());
    assert!(matches!(LogLevel::from_word("err"), Some(LogLevel::Error)));
    assert!(LogLevel::from_word("error").is_none());
}

#[test]
fn current_context_is_read_back_from_the_env_block() {
    let block = "export VAULT_CONTEXT='prod'\nexport VAULT_ADDR='1.1.1.1'\n";
    assert_eq!(current_context_of(block).as_deref(), Some("prod"));
    assert_eq!(current_context_of("").as_deref(), None);
    assert_eq!(current_context_of("export VAULT_ADDR='x'\n").as_deref(), None);
    let no_newline = "export VAULT_CONTEXT='last'";
    assert_eq!(current_context_of(no_newline).as_deref(), Some("last"));
    let later_line = "# comment\nexport VAULT_CONTEXT='second'\n";
    assert_eq!(current_context_of(later_line).as_deref(), Some("second"));
    let empty_name = "export VAULT_CONTEXT=''\n";
    assert_eq!(current_context_of(empty_name).as_deref(), Some(""));
    let unterminated = "export VAULT_CONTEXT='broken\n";
    assert_eq!(current_context_of(unterminated).as_deref(), None);
    let inner_quote = "export VAULT_CONTEXT='it's'\n";
    assert_eq!(current_context_of(inner_quote).as_deref(), Some("it's"));
}

#[test]
fn select_scenario_switches_and_snapshots() {
    let data = SharedData {
        configs: vec![minimal("a", "1.1.1.1", "t1"), minimal("b", "2.2.2.2", "t2")],
    };

    // First selection: nothing was active, so the marker is untouched.
    let first = plan_select(&data, "b", None);
    assert!(first.found);
    assert!(first.new_previous.is_none());
    let env = first.new_env_file.expect("a found profile renders");
    assert_eq!(env, "export VAULT_CONTEXT='b'\nexport VAULT_ADDR='2.2.2.2'\nexport VAULT_TOKEN='t2'\n");

    // Second selection: the marker captures what was active.
    let second = plan_select(&data, "a", Some(env.as_str()));
    assert!(second.found);
    assert_eq!(second.new_previous.as_deref(), Some("b"));
    let env2 = second.new_env_file.expect("a found profile renders");
    assert_eq!(env2, "export VAULT_CONTEXT='a'\nexport VAULT_ADDR='1.1.1.1'\nexport VAULT_TOKEN='t1'\n");
}

#[test]
fn select_of_missing_name_plans_no_writes() {
    let data = SharedData {
        configs: vec![minimal("a", "1.1.1.1", "t1")],
    };
    let plan = plan_select(&data, "zzz", Some("export VAULT_CONTEXT='a'\n"));
    assert!(!plan.found);
    assert!(plan.new_env_file.is_none());
    assert!(plan.new_previous.is_none());
}

#[test]
fn recall_without_prior_state_reports_nothing_to_restore() {
    let plan = plan_recall(None, None);
    assert!(plan.new_previous.is_none());
    assert!(plan.restored.is_none());
    assert!(plan.new_env_file.is_none());
}

#[test]
fn recall_takes_the_snapshot_over_the_old_marker() {
    let env = "export VAULT_CONTEXT='cur'\n";
    let plan = plan_recall(Some(env), Some("older"));
    assert_eq!(plan.new_previous.as_deref(), Some("cur"));
    assert_eq!(plan.restored.as_deref(), Some("cur"));
    assert_eq!(plan.new_env_file.as_deref(), Some(""));
}

#[test]
fn recall_falls_back_to_the_marker_file() {
    let plan = plan_recall(Some("no context line\n"), Some("older"));
    assert!(plan.new_previous.is_none());
    assert_eq!(plan.restored.as_deref(), Some("older"));
    assert_eq!(plan.new_env_file.as_deref(), Some(""));
}

#[test]
fn ensure_sourced_appends_once() {
    let line = vctx_source_line();
    let rc0 = "alias ll='ls -l'\n";
    let rc1 = ensure_sourced(rc0, line);
    assert_eq!(rc1, format!("{}{}\n", rc0, line));
    let rc2 = ensure_sourced(rc1.as_str(), line);
    assert_eq!(rc2, rc1);
    assert_eq!(rc2.matches(line).count(), 1);
}

#[test]
fn ensure_sourced_respects_an_existing_line() {
    let line = vctx_source_line();
    let rc = format!("# top\n{}\n# bottom\n", line);
    let out = ensure_sourced(rc.as_str(), line);
    assert_eq!(out, rc);
    assert!(contains_sub(rc.as_str(), line));
    assert!(!contains_sub("nothing here", line));
}

#[test]
fn rename_args_split_at_the_first_comma() {
    let pair = RenameArgs::from_str("old,new").expect("has a comma");
    assert_eq!(pair.0, "old");
    assert_eq!(pair.1, "new");
    let pair = RenameArgs::from_str("a,b,c").expect("has a comma");
    assert_eq!(pair.0, "a");
    assert_eq!(pair.1, "b,c");
    let pair = RenameArgs::from_str(",").expect("has a comma");
    assert_eq!(pair.0, "");
    assert_eq!(pair.1, "");
    assert!(RenameArgs::from_str("nocomma").is_none());
}

fn no_args() -> Args {
    Args {
        switchcontext: false,
        currentcontext: false,
        delete: None,
        rename: None,
        vault_context: None,
    }
}

#[test]
fn one_action_per_invocation_in_priority_order() {
    assert!(matches!(action_of(no_args()), Action::List));

    let mut a = no_args();
    a.currentcontext = true;
    a.switchcontext = true;
    a.delete = Some("d".to_string());
    assert!(matches!(action_of(a), Action::ShowCurrent));

    let mut a = no_args();
    a.switchcontext = true;
    a.delete = Some("d".to_string());
    assert!(matches!(action_of(a), Action::SwitchPrevious));

    let mut a = no_args();
    a.delete = Some("d".to_string());
    a.vault_context = Some("v".to_string());
    match action_of(a) {
        Action::Delete(n) => assert_eq!(n, "d"),
        _ => panic!("delete must win over select"),
    }

    let mut a = no_args();
    a.vault_context = Some("v".to_string());
    a.rename = Some(RenameArgs("x".to_string(), "y".to_string()));
    match action_of(a) {
        Action::Select(n) => assert_eq!(n, "v"),
        _ => panic!("select must win over rename"),
    }

    let mut a = no_args();
    a.rename = Some(RenameArgs("x".to_string(), "y".to_string()));
    match action_of(a) {
        Action::Rename(p) => {
            assert_eq!(p.0, "x");
            assert_eq!(p.1, "y");
        },
        _ => panic!("rename runs when nothing above it is given"),
    }
}
