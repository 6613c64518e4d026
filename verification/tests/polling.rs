use pubg_point_rankings::services::polling::{polling_config_from_settings, setting_bool, setting_u64_in_range, PollingSettingValues};

fn defaults() -> PollingSettingValues {
    PollingSettingValues {
        auto_recent_match_enabled: "1".to_string(),
        running_process_check_interval_seconds: "5".to_string(),
        not_running_process_check_interval_seconds: "30".to_string(),
        running_recent_match_interval_seconds: "30".to_string(),
        cooldown_polling_interval_seconds: "120".to_string(),
        cooldown_window_minutes: "40".to_string(),
        recent_match_retry_delay_seconds: "15".to_string(),
        recent_match_retry_limit: "2".to_string(),
    }
}

#[test]
fn invalid_numbers_fall_back_to_defaults() {
    let mut values = defaults();
    values.running_process_check_interval_seconds = "not-a-number".to_string();
    let config = polling_config_from_settings(&values);
    assert_eq!(config.running_process_check_interval / 1_000, 5);
}

#[test]
fn numbers_are_clamped_into_their_ranges() {
    assert_eq!(setting_u64_in_range(" 0 ", 5, 1, 300), 1);
    assert_eq!(setting_u64_in_range("9999", 5, 1, 300), 300);
    assert_eq!(setting_u64_in_range("+7", 5, 1, 300), 7);
    let mut values = defaults();
    values.cooldown_window_minutes = "2".to_string();
    values.recent_match_retry_limit = "11".to_string();
    let config = polling_config_from_settings(&values);
    assert_eq!(config.cooldown_window, 120_000);
    assert_eq!(config.recent_match_retry_limit, 10);
}

#[test]
fn booleans_read_common_spellings() {
    assert!(setting_bool("on", false));
    assert!(!setting_bool(" NO ", true));
    assert!(setting_bool("?", true));
}
