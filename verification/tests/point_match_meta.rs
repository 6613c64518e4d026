use pubg_point_rankings::repository::point_match_meta::{settlement_interval, single_settlement_needed};

fn ids(v: &[&str]) -> Vec<String> {
    v.iter().map(|s| s.to_string()).collect()
}

#[test]
fn settle_through_match_sets_only_target_interval_and_skips_previously_settled() {
    // The unsettled matches, oldest first.
    let unsettled = ids(&["match-1", "match-2", "match-3"]);
    let first_batch = settlement_interval(&unsettled, "match-2").expect("settle interval through match-2");
    assert_eq!(first_batch, ids(&["match-1", "match-2"]));
    assert_eq!(first_batch.len() as i64, 2);

    // What the first batch settled is no longer unsettled.
    let remaining: Vec<String> = unsettled.into_iter().filter(|id| !first_batch.contains(id)).collect();
    let second_batch = settlement_interval(&remaining, "match-3").expect("settle remaining through match-3");
    assert_eq!(second_batch, ids(&["match-3"]));
    assert_eq!(second_batch.len() as i64, 1);
}

#[test]
fn settling_skips_a_match_settled_before() {
    // "m2" was settled before and is not listed among the unsettled.
    let unsettled = ids(&["m1", "m3", "m4"]);
    let interval = settlement_interval(&unsettled, "m3").expect("interval");
    assert_eq!(interval, ids(&["m1", "m3"]));
    assert_eq!(interval.len() as i64, 2);
}

#[test]
fn settle_single_match_sets_only_target_match() {
    assert_eq!(single_settlement_needed(true, false, true).expect("exists"), true);
    assert_eq!(single_settlement_needed(true, true, true).expect("exists"), false);
    assert_eq!(single_settlement_needed(true, false, false).expect("exists"), false);
    assert_eq!(single_settlement_needed(false, false, true).unwrap_err().message(), "Match not found");
}

#[test]
fn settling_needs_unsettled_matches_and_a_listed_target() {
    assert_eq!(
        settlement_interval(&Vec::new(), "m1").unwrap_err().message(),
        "No unsettled matches available"
    );
    assert_eq!(
        settlement_interval(&ids(&["m1"]), "m9").unwrap_err().message(),
        "Target endMatchId is not in unsettled interval"
    );
}
