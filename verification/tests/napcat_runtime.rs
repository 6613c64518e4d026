use pubg_point_rankings::services::napcat_runtime::{
    coerce_loopback_host, evaluate_env_status, get_account_u32, get_notification_status, is_supported_windows_x64,
    external_environment, login_number, resolve_runtime_dir, webui_config_from_text, webui_info_from_config, webui_info_from_file, LoginReplyField,
    NapCatRuntimeState,
    NapCatWebUiInfo, RuntimeFacts, WebUiConfigValues,
};

#[test]
fn reports_missing_runtime_before_login_and_group_checks() {
    let status = evaluate_env_status(&NapCatRuntimeState {
        is_supported_os: true,
        runtime_installed: false,
        runtime_running: false,
        is_logged_in: false,
        group_id: String::new(),
    });

    assert_eq!(status, "missing_runtime");
}

#[test]
fn forces_non_loopback_host_to_localhost() {
    assert_eq!(coerce_loopback_host(Some("192.168.1.10".to_string())), "127.0.0.1");
    assert_eq!(coerce_loopback_host(Some("localhost".to_string())), "localhost");
}

#[test]
fn resolves_runtime_dir_from_trimmed_configured_path() {
    let resolved = resolve_runtime_dir("   /tmp/napcat-runtime   ", "/default/napcat".to_string());
    assert_eq!(resolved, "/tmp/napcat-runtime");
}

#[test]
fn blank_runtime_dir_falls_back_to_default() {
    let resolved = resolve_runtime_dir("   ", "/default/napcat".to_string());
    assert_eq!(resolved, "/default/napcat");
}

#[test]
fn env_status_checks_each_condition_in_order() {
    let mut state = NapCatRuntimeState {
        is_supported_os: false,
        runtime_installed: true,
        runtime_running: true,
        is_logged_in: true,
        group_id: "1".to_string(),
    };
    assert_eq!(evaluate_env_status(&state), "unsupported_os");
    state.is_supported_os = true;
    assert_eq!(evaluate_env_status(&state), "ready");
    state.group_id = "  ".to_string();
    assert_eq!(evaluate_env_status(&state), "missing_group_id");
    state.is_logged_in = false;
    assert_eq!(evaluate_env_status(&state), "not_logged_in");
    state.runtime_running = false;
    assert_eq!(evaluate_env_status(&state), "runtime_not_running");
}

#[test]
fn only_windows_x64_is_supported() {
    assert!(is_supported_windows_x64("windows", "x86_64"));
    assert!(!is_supported_windows_x64("linux", "x86_64"));
    assert!(!is_supported_windows_x64("windows", "aarch64"));
}

#[test]
fn webui_config_builds_urls_with_token() {
    let info = webui_info_from_config(WebUiConfigValues {
        host: Some("127.0.0.1".to_string()),
        port: Some(6099),
        one_bot_port: Some(3001),
        token: Some("abc".to_string()),
        web_ui_url: None,
        one_bot_url: None,
    });
    assert_eq!(info.web_ui_url, "http://127.0.0.1:6099/?token=abc");
    assert_eq!(info.one_bot_url, Some("http://127.0.0.1:3001".to_string()));
    assert_eq!(info.token, Some("abc".to_string()));
}

#[test]
fn webui_config_defaults_port_and_coerces_host() {
    let info = webui_info_from_config(WebUiConfigValues {
        host: Some("10.0.0.2".to_string()),
        port: None,
        one_bot_port: None,
        token: None,
        web_ui_url: None,
        one_bot_url: None,
    });
    assert_eq!(info.web_ui_url, "http://127.0.0.1:6099");
    assert_eq!(info.one_bot_url, None);
}

#[test]
fn stored_pid_parses_as_u32() {
    assert_eq!(get_account_u32(""), None);
    assert_eq!(get_account_u32(" 4242 "), Some(4242));
    assert_eq!(get_account_u32("-1"), None);
    assert_eq!(get_account_u32("4294967296"), None);
}

#[test]
fn status_reports_runtime_not_running_without_process_or_bot() {
    let status = get_notification_status(RuntimeFacts {
        is_enabled: false,
        group_id: "123456".to_string(),
        runtime_version: "v4.17.53".to_string(),
        windows_managed: false,
        is_supported_os: true,
        runtime_installed: true,
        runtime_dir: Some("/tmp/napcat".to_string()),
        webui_info: Some(NapCatWebUiInfo {
            web_ui_url: "http://127.0.0.1:6099/?token=abc".to_string(),
            one_bot_url: None,
            token: Some("abc".to_string()),
        }),
        pid_running: false,
        login: None,
    });
    assert_eq!(status.group_id, "123456");
    assert_eq!(status.env_status, "runtime_not_running");
    assert_eq!(status.install_dir, Some("/tmp/napcat".to_string()));
}

#[test]
fn login_number_prefers_user_id_and_reads_texts_trimmed() {
    let text = |t: &str| Some(LoginReplyField::Text(t.to_string()));
    let number = |n: &str| Some(LoginReplyField::Number(n.to_string()));
    assert_eq!(login_number(text(" 12345 "), number("999")), Some("12345".to_string()));
    assert_eq!(login_number(None, number("999")), Some("999".to_string()));
    assert_eq!(login_number(number("42"), None), Some("42".to_string()));
    // A blank user id names nobody; the uin is not read then.
    assert_eq!(login_number(text("   "), number("999")), None);
    assert_eq!(login_number(Some(LoginReplyField::Other), number("999")), None);
    assert_eq!(login_number(None, None), None);
}

#[test]
fn webui_config_is_read_from_the_first_present_keys() {
    let values = webui_config_from_text(
        r#"{"webuiHost":"localhost","host":"  ","port":"x","webui_port":6100,"onebotPort":3001,"accessToken":" tok ","webuiUrl":"http://u"}"#,
    )
    .expect("json");
    assert_eq!(values.host.as_deref(), Some("localhost"));
    assert_eq!(values.port, Some(6100));
    assert_eq!(values.one_bot_port, Some(3001));
    assert_eq!(values.token.as_deref(), Some("tok"));
    assert_eq!(values.web_ui_url.as_deref(), Some("http://u"));
    assert_eq!(values.one_bot_url, None);

    let info = webui_info_from_config(webui_config_from_text(r#"{"port":6101,"token":"abc"}"#).expect("json"));
    assert_eq!(info.web_ui_url, "http://127.0.0.1:6101/?token=abc");
    assert_eq!(info.one_bot_url, None);
}

#[test]
fn webui_config_that_is_not_json_gives_the_parser_message() {
    let error = webui_config_from_text("{not json").err().expect("parse error");
    assert!(!error.is_empty());
    assert!(webui_config_from_text("[]").is_ok());
}

#[test]
fn webui_file_that_is_not_json_names_its_path() {
    let error = webui_info_from_file("C:/napcat/webui.json", "{oops").err().expect("parse error");
    assert!(error.message().starts_with("failed to parse webui config at C:/napcat/webui.json: "));
    let info = webui_info_from_file("webui.json", r#"{"host":"example.com","port":6200,"onebot_port":3002}"#).expect("json");
    assert_eq!(info.web_ui_url, "http://127.0.0.1:6200");
    assert_eq!(info.one_bot_url.as_deref(), Some("http://127.0.0.1:3002"));
}

#[test]
fn probe_external_environment_returns_none_without_webui_config() {
    // A directory in which no webui.json was found.
    let result = external_environment("napcat-probe-no-webui".to_string(), None).expect("probe should not fail");
    assert!(result.is_none());
}

#[test]
fn probe_external_environment_detects_existing_webui_config() {
    let webui_file = (
        "napcat-probe-with-webui/webui.json".to_string(),
        r#"{"host":"127.0.0.1","port":6099,"onebotPort":3001,"token":"abc"}"#.to_string(),
    );
    let result = external_environment("napcat-probe-with-webui".to_string(), Some(webui_file)).expect("probe should not fail");

    assert!(result.is_some());
    let info = result.expect("expected detected environment");
    assert_eq!(info.runtime_dir, "napcat-probe-with-webui");
    assert_eq!(info.webui_info.web_ui_url, "http://127.0.0.1:6099/?token=abc");
    assert_eq!(info.webui_info.one_bot_url, Some("http://127.0.0.1:3001".to_string()));
}
