use pubg_point_rankings::error::AppError;
use pubg_point_rankings::repository::matches::{MatchDto, MatchPlayerDto};
use pubg_point_rankings::services::notifications::{
    apply_send_selected_result, build_player_lines, default_template_config, get_account_bool, normalize_template_config,
    onebot_reply_outcome, onebot_token, parse_group_id, players_points_gap_fits, rebuild_notification_message, render_battle_summary,
    render_match_message, render_match_message_at, automatic_send_follow_up, manual_send_follow_up, task_turn,
    SendFollowUp, TaskTurn,
    render_template_message, retry_delay_seconds, send_group_endpoint, NotificationTemplateConfigDto, NotificationTemplateLineConfigDto,
};

fn line(id: &str, prefix: &str, suffix: &str) -> (String, NotificationTemplateLineConfigDto) {
    (id.to_string(), NotificationTemplateLineConfigDto { id: id.to_string(), prefix: prefix.to_string(), suffix: suffix.to_string() })
}

fn order(ids: &[&str]) -> Vec<String> {
    ids.iter().map(|s| s.to_string()).collect()
}

#[test]
fn retry_schedule_uses_10_20_40_seconds() {
    assert_eq!(retry_delay_seconds(0), Some(10));
    assert_eq!(retry_delay_seconds(1), Some(20));
    assert_eq!(retry_delay_seconds(2), Some(40));
    assert_eq!(retry_delay_seconds(3), None);
}

#[test]
fn render_template_message_applies_order_and_affixes() {
    let message = render_template_message(
        &NotificationTemplateConfigDto {
            order: order(&["battle", "header", "player1", "player2", "player3", "player4"]),
            lines: vec![
                line("header", "[", "]"),
                line("player1", "", " <-1"),
                line("player2", "", ""),
                line("player3", "", ""),
                line("player4", "", ""),
                line("battle", "RESULT: ", ""),
            ],
        },
        &vec![
            ("header".to_string(), "03-30 06:47｜第4名".to_string()),
            ("player1".to_string(), "allOwO：1杀 / 143伤 / 0救 / 317分".to_string()),
            ("player2".to_string(), "-".to_string()),
            ("player3".to_string(), "-".to_string()),
            ("player4".to_string(), "-".to_string()),
            ("battle".to_string(), "张三 → 李四 12 分".to_string()),
        ],
    );

    assert_eq!(
        message,
        "RESULT: 张三 → 李四 12 分\n[03-30 06:47｜第4名]\nallOwO：1杀 / 143伤 / 0救 / 317分 <-1"
    );
}

#[test]
fn apply_send_selected_result_uses_persisted_status() {
    let mut sent_ids = Vec::new();
    let mut failed_ids = Vec::new();

    apply_send_selected_result(5, Some("sent"), &mut sent_ids, &mut failed_ids);
    apply_send_selected_result(6, Some("failed_manual"), &mut sent_ids, &mut failed_ids);
    apply_send_selected_result(7, Some("cancelled_settled"), &mut sent_ids, &mut failed_ids);
    apply_send_selected_result(8, None, &mut sent_ids, &mut failed_ids);

    assert_eq!(sent_ids, vec![5]);
    assert_eq!(failed_ids, vec![6, 7, 8]);
}

#[test]
fn default_template_has_six_plain_lines_in_order() {
    let config = default_template_config();
    assert_eq!(config.order, order(&["header", "player1", "player2", "player3", "player4", "battle"]));
    assert_eq!(config.lines.len(), 6);
    for (key, l) in &config.lines {
        assert_eq!(key, &l.id);
        assert!(l.prefix.is_empty() && l.suffix.is_empty());
    }
    assert_eq!(normalize_template_config(config.clone()).expect("valid"), config);
}

#[test]
fn normalizing_a_template_reports_each_problem() {
    let good_lines = vec![
        line("header", "[", "]"),
        line("player1", "", ""),
        line("player2", "", ""),
        line("player3", "", ""),
        line("player4", "", ""),
        line("battle", "RESULT: ", ""),
    ];
    let short = NotificationTemplateConfigDto { order: order(&["header"]), lines: good_lines.clone() };
    assert_eq!(normalize_template_config(short).unwrap_err().message(), "notification template order must contain 6 lines");

    let invalid = NotificationTemplateConfigDto {
        order: order(&["header", "player1", "player2", "player3", "player4", "footer"]),
        lines: good_lines.clone(),
    };
    assert_eq!(normalize_template_config(invalid).unwrap_err().message(), "invalid template line id: footer");

    let duplicate = NotificationTemplateConfigDto {
        order: order(&["header", "player1", "player1", "player3", "player4", "battle"]),
        lines: good_lines.clone(),
    };
    assert_eq!(normalize_template_config(duplicate).unwrap_err().message(), "duplicate template line id: player1");

    let missing = NotificationTemplateConfigDto {
        order: order(&["battle", "header", "player1", "player2", "player3", "player4"]),
        lines: good_lines[..5].to_vec(),
    };
    assert_eq!(normalize_template_config(missing).unwrap_err().message(), "missing template line config: battle");

    let mut mismatched_lines = good_lines.clone();
    mismatched_lines[0].1.id = "battle".to_string();
    let mismatch = NotificationTemplateConfigDto {
        order: order(&["battle", "header", "player1", "player2", "player3", "player4"]),
        lines: mismatched_lines,
    };
    assert_eq!(normalize_template_config(mismatch).unwrap_err().message(), "template line id mismatch for header");

    let good = NotificationTemplateConfigDto {
        order: order(&["battle", "header", "player1", "player2", "player3", "player4"]),
        lines: good_lines.clone(),
    };
    let normalized = normalize_template_config(good).expect("valid template");
    assert_eq!(normalized.order[0], "battle");
    assert_eq!(normalized.lines[0].1.prefix, "[");
    assert_eq!(normalized.lines[5].1.prefix, "RESULT: ");
}

fn player(id: i64, name: &str, team: i64, damage: i64, kills: i64, revives: i64, is_self: bool, points: i64) -> MatchPlayerDto {
    MatchPlayerDto {
        id,
        account_id: 1,
        match_id: "m".to_string(),
        teammate_id: None,
        pubg_account_id: Some(format!("acc-{id}")),
        pubg_player_name: name.to_string(),
        display_nickname_snapshot: None,
        team_id: Some(team),
        damage,
        kills,
        assists: 0,
        revives,
        placement: Some(4),
        is_self,
        is_points_enabled_snapshot: true,
        points,
        created_at: "t".to_string(),
    }
}

#[test]
fn battle_summary_names_lowest_and_highest() {
    let players = vec![
        player(1, "allOwO", 7, 143_600, 1, 0, true, 317),
        player(2, "队友A", 7, 88_200, 0, 1, false, 184),
        player(3, "队友B", 7, 201_400, 2, 0, false, 402),
        player(4, "队友C", 7, 0, 0, 0, false, 0),
    ];
    assert_eq!(render_battle_summary(&players), "队友C → 队友B 402 分");
    assert_eq!(render_battle_summary(&players[..1].to_vec()), "无对战结果");
    let level = vec![player(1, "a", 7, 0, 0, 0, true, 5), player(2, "b", 7, 0, 0, 0, false, 5)];
    assert_eq!(render_battle_summary(&level), "无人胜出");
}

#[test]
fn player_lines_put_self_first_and_cut_damage() {
    let players = vec![
        player(1, "allOwO", 7, 143_600, 1, 0, true, 317),
        player(2, "队友A", 7, 88_200, 0, 1, false, 184),
        player(3, "队友B", 7, 201_400, 2, 0, false, 402),
        player(9, "enemy", 8, 500_000, 5, 0, false, 999),
    ];
    let lines = build_player_lines(&players, Some(7));
    assert_eq!(lines.len(), 4);
    assert_eq!(lines[0], "allOwO：1杀 / 143伤 / 0救 / 317分");
    assert_eq!(lines[1], "队友B：2杀 / 201伤 / 0救 / 402分");
    assert_eq!(lines[2], "队友A：0杀 / 88伤 / 1救 / 184分");
    assert_eq!(lines[3], "");
}

#[test]
fn account_bool_reads_common_spellings() {
    assert!(get_account_bool(Some(" Yes ".to_string()), false));
    assert!(!get_account_bool(Some("off".to_string()), true));
    assert!(get_account_bool(Some("maybe".to_string()), true));
    assert!(!get_account_bool(None, false));
}

#[test]
fn group_id_must_be_an_integer() {
    assert_eq!(parse_group_id(" 123456 ").expect("integer"), 123456);
    assert_eq!(parse_group_id("-5").expect("integer"), -5);
    assert_eq!(parse_group_id("12a").unwrap_err().message(), "notification group id must be an integer");
}

#[test]
fn onebot_helpers_pick_token_endpoint_and_outcome() {
    assert_eq!(onebot_token(Some("  ".to_string()), "conf".to_string()), "conf");
    assert_eq!(onebot_token(Some("web".to_string()), "conf".to_string()), "web");
    assert_eq!(send_group_endpoint("http://127.0.0.1:3001//"), "http://127.0.0.1:3001/send_group_msg");
    assert!(onebot_reply_outcome(Some("OK".to_string()), None, None, None).is_ok());
    assert!(onebot_reply_outcome(None, Some(0), None, None).is_ok());
    assert_eq!(
        onebot_reply_outcome(Some("failed".to_string()), Some(100), None, Some("bad group".to_string())).unwrap_err().message(),
        "bad group"
    );
    assert_eq!(
        onebot_reply_outcome(None, None, None, None).unwrap_err().message(),
        "onebot send_group_msg failed"
    );
}

#[test]
fn rebuild_failed_message_uses_latest_template_and_falls_back_when_match_missing() {
    let match_data = MatchDto {
        id: 1,
        account_id: 1,
        match_id: "match-template-retry".to_string(),
        platform: "steam".to_string(),
        map_name: Some("Erangel".to_string()),
        game_mode: Some("squad".to_string()),
        played_at: "2026-03-29T14:47:49Z".to_string(),
        match_start_at: None,
        match_end_at: Some("2026-03-29T14:47:49Z".to_string()),
        telemetry_url: None,
        status: "ready".to_string(),
        created_at: "t".to_string(),
        updated_at: "t".to_string(),
    };
    let mut players = vec![
        player(1, "allOwO", 7, 143_600, 1, 0, true, 317),
        player(2, "队友A", 7, 88_200, 0, 1, false, 184),
        player(3, "队友B", 7, 201_400, 2, 0, false, 402),
        player(4, "队友C", 7, 0, 0, 0, false, 0),
    ];
    players[0].pubg_account_id = Some("self".to_string());
    players[2].assists = 1;

    let saved_config = normalize_template_config(NotificationTemplateConfigDto {
        order: order(&["battle", "header", "player1", "player2", "player3", "player4"]),
        lines: vec![
            line("header", "[", "]"),
            line("player1", "", ""),
            line("player2", "", ""),
            line("player3", "", ""),
            line("player4", "", ""),
            line("battle", "RESULT: ", ""),
        ],
    })
    .expect("save template config");

    let rebuilt = rebuild_notification_message(Some(&match_data), &players, &saved_config, "persisted body");
    assert!(rebuilt.starts_with("RESULT: 队友C → 队友B 402 分\n[03-29 22:47｜第4名]"));
    assert!(rebuilt.contains("allOwO：1杀 / 143伤 / 0救 / 317分"));
    assert!(!rebuilt.contains("\n-\n"));
    assert!(!rebuilt.ends_with("\n-"));
    assert_eq!(saved_config.order[0], "battle");

    let fallback = rebuild_notification_message(None, &Vec::new(), &saved_config, "persisted body");
    assert_eq!(fallback, "persisted body");
}

#[test]
fn normalizing_a_normalized_template_changes_nothing() {
    let config = NotificationTemplateConfigDto {
        order: order(&["battle", "header", "player1", "player2", "player3", "player4"]),
        lines: vec![
            line("battle", "RESULT: ", "!"),
            line("player4", "", ""),
            line("header", "[", "]"),
            line("player3", "", ""),
            line("player2", "", ""),
            line("player1", "> ", ""),
        ],
    };
    let once = normalize_template_config(config).expect("first");
    let twice = normalize_template_config(once.clone()).expect("second");
    assert_eq!(once, twice);
    assert_eq!(once.lines[0].0, "header");

    let default = default_template_config();
    assert_eq!(normalize_template_config(default.clone()).expect("default"), default);
}

#[test]
fn match_message_header_shows_time_and_placement() {
    let players = vec![player(1, "allOwO", 7, 143_600, 1, 0, true, 317), player(2, "Mate", 7, 88_200, 0, 1, false, 184)];
    let config = default_template_config();
    let message = render_match_message_at(&config, "03-29 22:47", &players, "Mate → allOwO 133 分");
    assert!(message.starts_with("03-29 22:47｜第4名\nallOwO：1杀 / 143伤 / 0救 / 317分\nMate："));
    assert!(message.ends_with("Mate → allOwO 133 分"));

    let shown = render_match_message(&config, "2026-03-29T14:47:49Z", &players, "x");
    assert!(shown.starts_with("03-29 22:47｜第4名"));
    let unreadable = render_match_message(&config, "yesterday", &players, "x");
    assert!(unreadable.starts_with("yesterday｜第4名"));
}

#[test]
fn due_tasks_are_cancelled_when_settled_and_retried_three_times() {
    assert_eq!(task_turn(true), TaskTurn::CancelSettled);
    assert_eq!(task_turn(false), TaskTurn::Send);
    assert!(matches!(automatic_send_follow_up(Ok(()), 0), SendFollowUp::SentAndSettle));
    match automatic_send_follow_up(Err(AppError::Message("down".to_string())), 1) {
        SendFollowUp::RetryLater { retry_count, delay_seconds, error } => {
            assert_eq!((retry_count, delay_seconds, error.as_str()), (2, 20, "down"));
        }
        other => panic!("unexpected {other:?}"),
    }
    match automatic_send_follow_up(Err(AppError::Message("down".to_string())), 3) {
        SendFollowUp::FailManual { error } => assert_eq!(error, "down"),
        other => panic!("unexpected {other:?}"),
    }
    match manual_send_follow_up(Err(AppError::Message("nope".to_string()))) {
        SendFollowUp::FailManual { error } => assert_eq!(error, "nope"),
        other => panic!("unexpected {other:?}"),
    }
}

#[test]
fn points_gap_counts_only_enabled_players() {
    let high = player(1, "A", 1, 0, 0, 0, true, i64::MAX);
    let low = player(2, "B", 1, 0, 0, 0, false, -1);
    assert!(!players_points_gap_fits(&vec![high.clone(), low.clone()]));
    let off = MatchPlayerDto { is_points_enabled_snapshot: false, ..low.clone() };
    assert!(players_points_gap_fits(&vec![high.clone(), off]));
    let zero = player(3, "C", 1, 0, 0, 0, false, 0);
    assert!(players_points_gap_fits(&vec![high, zero]));
}
