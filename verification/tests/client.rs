use pubg_point_rankings::pubg::client::{
    match_url, player_by_id_url, players_by_name_url, PubgClient, PubgEntityAttributes, PubgIncludedEntity,
    PubgIncludedRelationships, PubgMatch, PubgMatchAttributes, PubgMatchRelationships, PubgParticipantStats, PubgPlayer,
    PubgPlayerAttributes, PubgPlayerRelationships, PubgRelationshipList, PubgResourceRef, PubgRosterStats,
};

fn reference(id: &str, kind: &str) -> PubgResourceRef {
    PubgResourceRef { id: id.to_string(), resource_type: kind.to_string() }
}

fn player(refs: Vec<PubgResourceRef>) -> PubgPlayer {
    PubgPlayer {
        id: "account.1".to_string(),
        attributes: PubgPlayerAttributes { name: "allOwO".to_string() },
        relationships: Some(PubgPlayerRelationships { matches: Some(PubgRelationshipList { data: refs }) }),
    }
}

fn entity(id: &str, kind: &str, attributes: PubgEntityAttributes, participants: Option<Vec<&str>>) -> PubgIncludedEntity {
    PubgIncludedEntity {
        id: id.to_string(),
        entity_type: kind.to_string(),
        attributes,
        relationships: participants.map(|ids| PubgIncludedRelationships {
            participants: Some(PubgRelationshipList { data: ids.into_iter().map(|p| reference(p, "participant")).collect() }),
        }),
    }
}

fn no_attributes() -> PubgEntityAttributes {
    PubgEntityAttributes { url: None, roster_stats: None, participant_stats: None }
}

fn stats(player_id: Option<&str>, name: Option<&str>, damage: Option<i64>, kills: Option<i64>) -> PubgEntityAttributes {
    PubgEntityAttributes {
        url: None,
        roster_stats: None,
        participant_stats: Some(PubgParticipantStats {
            player_id: player_id.map(ToOwned::to_owned),
            name: name.map(ToOwned::to_owned),
            damage_dealt: damage,
            kills,
            assists: None,
            revives: Some(1),
        }),
    }
}

fn sample_match(included: Vec<PubgIncludedEntity>) -> PubgMatch {
    PubgMatch {
        id: "match-1".to_string(),
        attributes: PubgMatchAttributes {
            game_mode: Some("squad".to_string()),
            map_name: Some("Baltic_Main".to_string()),
            created_at: "2026-03-29T14:47:49Z".to_string(),
            duration: Some(1800),
            match_type: None,
            is_custom_match: None,
            shard_id: None,
        },
        relationships: PubgMatchRelationships {
            assets: PubgRelationshipList { data: vec![reference("asset-1", "asset")] },
            rosters: None,
        },
        included,
    }
}

#[test]
fn addresses_encode_their_argument() {
    assert_eq!(
        players_by_name_url("a b", "steam"),
        "https://api.pubg.com/shards/steam/players?filter[playerNames]=a%20b"
    );
    assert_eq!(player_by_id_url("account.1", "kakao"), "https://api.pubg.com/shards/kakao/players/account.1");
    assert_eq!(match_url("m/1", "steam"), "https://api.pubg.com/shards/steam/matches/m%2F1");
}

#[test]
fn addresses_encode_the_utf8_bytes_of_other_characters() {
    // U+00E9 is the two bytes C3 A9; "~" stays as it is.
    assert_eq!(
        players_by_name_url("\u{e9}~", "steam"),
        "https://api.pubg.com/shards/steam/players?filter[playerNames]=%C3%A9~"
    );
}

#[test]
fn bearer_token_carries_the_key() {
    assert_eq!(PubgClient::new("abc".to_string()).bearer_token(), "Bearer abc");
}

#[test]
fn recent_matches_take_only_match_references_up_to_the_limit() {
    let client = PubgClient::new("k".to_string());
    let p = player(vec![reference("m1", "match"), reference("x", "season"), reference("m2", "match"), reference("m3", "match")]);
    assert_eq!(client.get_recent_matches(Some(p.clone()), 2).unwrap(), vec!["m1".to_string(), "m2".to_string()]);
    assert_eq!(client.get_recent_matches_for_player_name(&vec![p], 10).unwrap().len(), 3);
    assert!(client.get_recent_matches_for_player_name(&Vec::new(), 10).unwrap().is_empty());
    match client.get_recent_matches(None, 1) {
        Err(e) => assert_eq!(e.message(), "player not found"),
        Ok(_) => panic!("a missing player is an error"),
    }
}

#[test]
fn telemetry_url_comes_from_the_first_asset() {
    let client = PubgClient::new("k".to_string());
    let mut other = no_attributes();
    other.url = Some("https://other".to_string());
    let mut asset = no_attributes();
    asset.url = Some("https://telemetry/1.json".to_string());
    let m = sample_match(vec![entity("asset-2", "asset", other, None), entity("asset-1", "asset", asset, None)]);
    assert_eq!(client.get_telemetry_url(&m), Some("https://telemetry/1.json".to_string()));
    assert_eq!(client.get_telemetry_url(&sample_match(Vec::new())), None);
}

#[test]
fn participants_take_team_and_placement_from_their_roster() {
    let client = PubgClient::new("k".to_string());
    let mut roster = no_attributes();
    roster.roster_stats = Some(PubgRosterStats { rank: Some(3), team_id: Some(7) });
    let m = sample_match(vec![
        entity("roster-1", "roster", roster, Some(vec!["p1"])),
        entity("p1", "participant", stats(Some(" account.1 "), Some(" allOwO "), Some(143_600), Some(2)), None),
        entity("p2", "participant", stats(Some("account.2"), Some("  "), None, None), None),
        entity("p3", "participant", stats(Some("   "), Some("nobody"), None, None), None),
        entity("p4", "participant", no_attributes(), None),
    ]);
    let ps = client.extract_match_participants(&m);
    assert_eq!(ps.len(), 2);
    assert_eq!(ps[0].pubg_account_id, "account.1");
    assert_eq!(ps[0].pubg_player_name, "allOwO");
    assert_eq!(ps[0].team_id, Some(7));
    assert_eq!(ps[0].placement, Some(3));
    assert_eq!(ps[0].damage, 143_600);
    assert_eq!(ps[0].kills, 2);
    assert_eq!(ps[0].assists, 0);
    assert_eq!(ps[0].revives, 1);
    assert_eq!(ps[1].pubg_player_name, "account.2");
    assert_eq!(ps[1].team_id, None);
    assert_eq!(ps[1].damage, 0);
}
