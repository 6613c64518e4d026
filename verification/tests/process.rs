use pubg_point_rankings::platform::process::{is_pubg_process_name, is_pubg_running, parse_tasklist_csv_names};

#[test]
fn recognizes_pubg_process_names_case_insensitively() {
    assert!(is_pubg_process_name("TslGame.exe"));
    assert!(is_pubg_process_name("PUBG.exe"));
    assert!(!is_pubg_process_name("explorer.exe"));
}

#[test]
fn parses_first_csv_column_as_process_name() {
    let output = "\"explorer.exe\",\"1244\",\"Console\",\"1\",\"12,344 K\"\n\
\"TslGame.exe\",\"8892\",\"Console\",\"1\",\"1,234,567 K\"\n";

    let names = parse_tasklist_csv_names(output);

    assert_eq!(names, vec!["explorer.exe", "TslGame.exe"]);
}

#[test]
fn non_windows_fails_safe_as_not_running() {
    // Off Windows the process list is what an empty tasklist output gives.
    assert!(!is_pubg_running(&parse_tasklist_csv_names("")));
}

#[test]
fn process_names_are_trimmed_before_matching() {
    assert!(is_pubg_process_name("  tslgame.EXE  "));
    assert!(!is_pubg_process_name("TslGame.exe.bak"));
}

#[test]
fn running_when_any_listed_process_is_the_game() {
    let names = vec!["explorer.exe".to_string(), "PUBG.exe".to_string()];
    assert!(is_pubg_running(&names));
    let names = vec!["explorer.exe".to_string()];
    assert!(!is_pubg_running(&names));
}
