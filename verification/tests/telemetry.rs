use pubg_point_rankings::parser::telemetry::{
    causer_name_rewrite,
    aggregate_player_stats, display_damage_causer_name, parse_match_detail, DamageInfo, MatchCharacterEnd,
    MatchCharacterStart, PlayerIdentity, TelemetryEvent,
};

// Damage is in thousandths of a hit point: 99.4 is 99_400.

fn s(v: &str) -> Option<String> {
    Some(v.to_string())
}

fn who(account_id: Option<&str>, name: Option<&str>) -> Option<PlayerIdentity> {
    Some(PlayerIdentity { account_id: account_id.map(|a| a.to_string()), name: name.map(|n| n.to_string()) })
}

fn start(at: Option<&str>, characters: Vec<(Option<&str>, Option<&str>, Option<i64>)>) -> TelemetryEvent {
    TelemetryEvent::MatchStart {
        event_at: at.map(|a| a.to_string()),
        characters: characters
            .into_iter()
            .map(|(a, n, t)| MatchCharacterStart { account_id: a.map(|x| x.to_string()), name: n.map(|x| x.to_string()), team_id: t })
            .collect(),
    }
}

fn end(at: Option<&str>, characters: Vec<(Option<&str>, Option<i64>)>) -> TelemetryEvent {
    TelemetryEvent::MatchEnd {
        event_at: at.map(|a| a.to_string()),
        characters: characters
            .into_iter()
            .map(|(a, r)| MatchCharacterEnd { account_id: a.map(|x| x.to_string()), ranking: r })
            .collect(),
    }
}

fn damage(at: Option<&str>, attacker: Option<PlayerIdentity>, victim: Option<PlayerIdentity>, amount: i64, causer: Option<&str>) -> TelemetryEvent {
    TelemetryEvent::PlayerTakeDamage {
        event_at: at.map(|a| a.to_string()),
        attacker,
        victim,
        damage: amount,
        damage_type_category: None,
        damage_causer_name: causer.map(|c| c.to_string()),
    }
}

fn kill(
    at: Option<&str>,
    killer: Option<PlayerIdentity>,
    victim: Option<PlayerIdentity>,
    assists: Vec<&str>,
    causer: Option<&str>,
    finish: Option<&str>,
) -> TelemetryEvent {
    TelemetryEvent::PlayerKillV2 {
        event_at: at.map(|a| a.to_string()),
        killer,
        victim,
        finisher: None,
        dbno_maker: None,
        assists_account_ids: assists.into_iter().map(|a| a.to_string()).collect(),
        damage_type_category: None,
        damage_causer_name: causer.map(|c| c.to_string()),
        killer_damage_info: None,
        finish_damage_info: finish.map(|f| DamageInfo { damage_causer_name: Some(f.to_string()) }),
    }
}

#[test]
fn parses_and_aggregates_basic_stats() {
    let events = vec![
        start(Some("2026-01-01T10:00:00Z"), vec![(Some("a1"), Some("self"), Some(10)), (Some("a2"), Some("mate"), Some(10))]),
        damage(Some("2026-01-01T10:05:00Z"), who(Some("a1"), Some("self")), who(Some("a2"), Some("mate")), 99_400, Some("WeapUMP_C")),
        kill(Some("2026-01-01T10:06:00Z"), who(Some("a1"), Some("self")), who(Some("a3"), Some("enemy")), vec!["a2"], Some("WeapUMP_C"), None),
        TelemetryEvent::PlayerRevive {
            event_at: s("2026-01-01T10:07:00Z"),
            reviver: who(Some("a2"), Some("mate")),
            victim: who(Some("a1"), Some("self")),
        },
        end(Some("2026-01-01T10:30:00Z"), vec![(Some("a1"), Some(1)), (Some("a2"), Some(1))]),
    ];

    let stats = aggregate_player_stats(&events);
    let detail = parse_match_detail(&events);

    let self_stats = stats.iter().find(|entry| entry.pubg_account_id == "a1").expect("self stats present");
    assert_eq!(self_stats.kills, 1);
    assert_eq!(self_stats.damage, 99_400);
    assert_eq!(self_stats.placement, Some(1));
    assert_eq!(detail.kill_events.len(), 1);
    assert_eq!(detail.revive_events.len(), 1);
    assert_eq!(detail.weapon_damage_stats.len(), 1);
    assert_eq!(detail.match_start_at.as_deref(), Some("2026-01-01T10:00:00Z"));
    assert_eq!(detail.match_end_at.as_deref(), Some("2026-01-01T10:30:00Z"));
}

#[test]
fn tolerates_missing_account_ids() {
    let events = vec![
        start(None, vec![(Some("a1"), Some("self"), Some(10)), (None, Some("unknown"), Some(10))]),
        damage(None, who(Some("a1"), Some("self")), who(None, Some("mystery")), 50_000, None),
        kill(None, who(None, Some("ghost")), None, vec![], None, None),
        TelemetryEvent::PlayerRevive { event_at: None, reviver: who(Some("a1"), Some("self")), victim: None },
        end(None, vec![(Some("a1"), Some(2)), (None, None)]),
    ];

    let stats = aggregate_player_stats(&events);

    assert_eq!(stats.len(), 1);
    let self_stats = stats.iter().find(|entry| entry.pubg_account_id == "a1").expect("self stats present");
    assert_eq!(self_stats.damage, 0);
    assert_eq!(self_stats.kills, 0);
    assert_eq!(self_stats.revives, 1);
    assert_eq!(self_stats.placement, Some(2));
}

#[test]
fn maps_official_damage_causer_names_for_logs_and_weapon_stats() {
    let events = vec![
        start(None, vec![(Some("a1"), Some("self"), Some(10)), (Some("a2"), Some("enemy"), Some(20))]),
        damage(Some("2026-01-01T10:05:00Z"), who(Some("a1"), Some("self")), who(Some("a2"), Some("enemy")), 35_000, Some("WeapMk12_C")),
        kill(Some("2026-01-01T10:06:00Z"), who(Some("a1"), Some("self")), who(Some("a2"), Some("enemy")), vec![], None, Some("WeapMk12_C")),
        kill(Some("2026-01-01T10:07:00Z"), who(Some("a1"), Some("self")), who(Some("a2"), Some("enemy")), vec![], Some("ProjGrenade_C"), None),
    ];

    let detail = parse_match_detail(&events);

    assert_eq!(detail.damage_events[0].damage_causer_name.as_deref(), Some("Mk12"));
    assert_eq!(detail.weapon_damage_stats[0].weapon_name, "Mk12");
    assert_eq!(detail.kill_events[0].damage_causer_name.as_deref(), Some("Mk12"));
    assert_eq!(detail.kill_events[1].damage_causer_name.as_deref(), Some("Frag Grenade"));
}

#[test]
fn maps_official_environment_and_vehicle_damage_causers() {
    let events = vec![
        start(None, vec![(Some("a1"), Some("self"), Some(10)), (Some("a2"), Some("enemy"), Some(20))]),
        damage(
            Some("2026-01-01T10:05:00Z"),
            who(Some("a1"), Some("self")),
            who(Some("a2"), Some("enemy")),
            12_000,
            Some("BattleRoyaleModeController_Desert_C"),
        ),
        kill(Some("2026-01-01T10:06:00Z"), who(Some("a1"), Some("self")), who(Some("a2"), Some("enemy")), vec![], Some("Uaz_A_01_C"), None),
    ];

    let detail = parse_match_detail(&events);

    assert_eq!(detail.damage_events[0].damage_causer_name.as_deref(), Some("Bluezone"));
    assert_eq!(detail.weapon_damage_stats[0].weapon_name, "Bluezone");
    assert_eq!(detail.kill_events[0].damage_causer_name.as_deref(), Some("UAZ (open top)"));
}

#[test]
fn captures_knock_events_separately_from_final_kills() {
    let events = vec![
        start(None, vec![(Some("a1"), Some("self"), Some(10)), (Some("a2"), Some("enemy"), Some(20))]),
        TelemetryEvent::PlayerMakeGroggy {
            event_at: s("2026-01-01T10:05:00Z"),
            attacker: who(Some("a1"), Some("self")),
            victim: who(Some("a2"), Some("enemy")),
            damage_type_category: s("Damage_Gun"),
            damage_causer_name: s("WeapACE32_C"),
        },
        TelemetryEvent::PlayerKillV2 {
            event_at: s("2026-01-01T10:06:00Z"),
            killer: who(Some("a1"), Some("self")),
            victim: who(Some("a2"), Some("enemy")),
            finisher: who(Some("a1"), Some("self")),
            dbno_maker: who(Some("a1"), Some("self")),
            assists_account_ids: vec![],
            damage_type_category: None,
            damage_causer_name: None,
            killer_damage_info: None,
            finish_damage_info: Some(DamageInfo { damage_causer_name: s("WeapACE32_C") }),
        },
    ];

    let detail = parse_match_detail(&events);

    assert_eq!(detail.knock_events.len(), 1);
    assert_eq!(detail.kill_events.len(), 1);
    assert_eq!(detail.knock_events[0].attacker_name.as_deref(), Some("self"));
    assert_eq!(detail.knock_events[0].victim_name.as_deref(), Some("enemy"));
    assert_eq!(detail.knock_events[0].damage_causer_name.as_deref(), Some("ACE32"));
    assert_eq!(detail.kill_events[0].killer_name.as_deref(), Some("self"));
    assert_eq!(detail.kill_events[0].victim_name.as_deref(), Some("enemy"));
    assert_eq!(detail.kill_events[0].damage_causer_name.as_deref(), Some("ACE32"));
}

#[test]
fn damage_is_rounded_to_a_tenth_and_sorted_by_kills() {
    let events = vec![
        start(None, vec![(Some("a1"), Some("one"), Some(1)), (Some("a2"), Some("two"), Some(1))]),
        damage(None, who(Some("a1"), Some("one")), who(Some("a9"), Some("x")), 10_049, None),
        damage(None, who(Some("a2"), Some("two")), who(Some("a9"), Some("x")), 10_050, None),
        kill(None, who(Some("a2"), Some("two")), who(Some("a9"), Some("x")), vec![], None, None),
    ];
    let stats = aggregate_player_stats(&events);
    assert_eq!(stats[0].pubg_account_id, "a2");
    assert_eq!(stats[0].damage, 10_100);
    assert_eq!(stats[1].damage, 10_000);
}

#[test]
fn unknown_causer_falls_back_to_category_then_unknown() {
    assert_eq!(display_damage_causer_name(&Some("WeapMk12_C".to_string()), &None), "Mk12");
    assert_eq!(display_damage_causer_name(&Some("  MysteryGun ".to_string()), &None), "MysteryGun");
    assert_eq!(display_damage_causer_name(&None, &Some("Damage_Gun".to_string())), "Damage_Gun");
    assert_eq!(display_damage_causer_name(&Some("  ".to_string()), &None), "Unknown");
}

#[test]
fn stored_raw_causer_names_are_rewritten_to_display_names() {
    assert_eq!(causer_name_rewrite(&"WeapMk12_C".to_string(), &s("Gun")), s("Mk12"));
    assert_eq!(causer_name_rewrite(&"Uaz_A_01_C".to_string(), &s("Vehicle Crash")), s("UAZ (open top)"));
    assert_eq!(causer_name_rewrite(&"WeapMk12_C".to_string(), &None), s("Mk12"));
    assert_eq!(causer_name_rewrite(&"Mk12".to_string(), &None), None);
    assert_eq!(causer_name_rewrite(&"  ".to_string(), &s("Bluezone")), s("Bluezone"));
}

#[test]
fn a_rewritten_causer_name_is_left_alone_the_second_time() {
    for (stored, category) in [
        ("WeapMk12_C", s("Gun")),
        ("Uaz_A_01_C", s("Vehicle Crash")),
        ("Jerrycan", None),
        ("TslPainCausingVolume", None),
        ("  ", None),
        ("Custom Thing", s("Gun")),
    ] {
        let once = match causer_name_rewrite(&stored.to_string(), &category) {
            Some(n) => n,
            None => stored.to_string(),
        };
        assert_eq!(causer_name_rewrite(&once, &category), None, "{stored}");
    }
    assert_eq!(display_damage_causer_name(&s("Lava"), &None), "Lava");
    assert_eq!(display_damage_causer_name(&s("Unknown"), &None), "Unknown");
}

#[test]
fn players_with_equal_ranks_keep_the_order_they_were_first_seen() {
    let events = vec![
        start(None, vec![(Some("b2"), Some("same"), Some(1)), (Some("b1"), Some("same"), Some(1))]),
        damage(None, who(Some("b2"), Some("same")), who(Some("a9"), Some("x")), 5_000, None),
        damage(None, who(Some("b1"), Some("same")), who(Some("a9"), Some("x")), 5_000, None),
    ];
    let ids: Vec<String> = aggregate_player_stats(&events).iter().map(|p| p.pubg_account_id.clone()).collect();
    assert_eq!(&ids[..2], &["b2".to_string(), "b1".to_string()]);
}
