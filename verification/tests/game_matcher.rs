use game_overlay::detector::{check_initial_game_state, DebouncedTracker};
use game_overlay::profile::{detect_game, game_profiles, GameProfile};
use game_overlay::snapshot::ProcessSnapshot;
use game_overlay::tracker::TrackerUpdate;

fn snapshot(names: &[&str]) -> ProcessSnapshot {
    let mut snapshot = ProcessSnapshot::new();
    for name in names {
        snapshot.record(name.to_string());
    }
    snapshot
}

fn listing(names: &[&str]) -> Vec<u8> {
    let mut text = String::new();
    for name in names {
        text.push_str(&format!("\"{}\",\"100\",\"Console\",\"1\",\"12,345 K\"\r\n", name));
    }
    text.into_bytes()
}

fn game(id: &str) -> Option<String> {
    Some(id.to_string())
}

#[test]
fn built_in_table_has_four_profiles() {
    let profiles = game_profiles();
    let expected = vec![
        GameProfile::new(
            "valorant".to_string(),
            vec!["valorant.exe".to_string(), "valorant-win64-shipping.exe".to_string()],
        ),
        GameProfile::new("lol".to_string(), vec!["league of legends.exe".to_string()]),
        GameProfile::new("tft".to_string(), vec!["league of legends.exe".to_string()]),
        GameProfile::new("cs2".to_string(), vec!["cs2.exe".to_string()]),
    ];
    assert_eq!(profiles, expected);
}

#[test]
fn each_game_is_matched_by_its_executable() {
    let profiles = game_profiles();
    assert_eq!(detect_game(&snapshot(&["valorant.exe"]), &profiles), game("valorant"));
    assert_eq!(
        detect_game(&snapshot(&["explorer.exe", "valorant-win64-shipping.exe"]), &profiles),
        game("valorant")
    );
    assert_eq!(detect_game(&snapshot(&["cs2.exe"]), &profiles), game("cs2"));
    assert_eq!(detect_game(&snapshot(&["league of legends.exe"]), &profiles), game("lol"));
}

#[test]
fn nothing_is_matched_without_a_known_executable() {
    let profiles = game_profiles();
    assert_eq!(detect_game(&snapshot(&[]), &profiles), None);
    assert_eq!(detect_game(&snapshot(&["explorer.exe", "riotclient.exe"]), &profiles), None);
    assert_eq!(detect_game(&snapshot(&["CS2.EXE"]), &profiles), None);
    assert_eq!(detect_game(&snapshot(&["cs2.exe"]), &Vec::new()), None);
}

#[test]
fn declaration_order_breaks_ties() {
    let profiles = game_profiles();
    assert_eq!(detect_game(&snapshot(&["cs2.exe", "valorant.exe"]), &profiles), game("valorant"));
    assert_eq!(
        detect_game(&snapshot(&["cs2.exe", "league of legends.exe"]), &profiles),
        game("lol")
    );
    let reversed: Vec<GameProfile> = profiles.iter().rev().cloned().collect();
    assert_eq!(detect_game(&snapshot(&["cs2.exe", "valorant.exe"]), &reversed), game("cs2"));
    assert_eq!(detect_game(&snapshot(&["league of legends.exe"]), &reversed), game("tft"));
}

#[test]
fn matching_is_repeatable() {
    let profiles = game_profiles();
    let first = snapshot(&["a.exe", "cs2.exe", "league of legends.exe"]);
    let second = snapshot(&["league of legends.exe", "cs2.exe", "a.exe", "cs2.exe"]);
    let expected = detect_game(&first, &profiles);
    for _ in 0..3 {
        assert_eq!(detect_game(&first, &profiles), expected);
        assert_eq!(detect_game(&second, &profiles), expected);
    }
    assert_eq!(expected, game("lol"));
}

#[test]
fn profile_runs_when_one_executable_is_present() {
    let profile = GameProfile::new(
        "valorant".to_string(),
        vec!["valorant.exe".to_string(), "valorant-win64-shipping.exe".to_string()],
    );
    assert!(profile.runs_in(&snapshot(&["valorant-win64-shipping.exe"])));
    assert!(profile.runs_in(&snapshot(&["x.exe", "valorant.exe"])));
    assert!(!profile.runs_in(&snapshot(&["x.exe"])));
    let nothing = GameProfile::new("none".to_string(), Vec::new());
    assert!(!nothing.runs_in(&snapshot(&["x.exe"])));
}

#[test]
fn initial_state_is_detected_from_the_listing() {
    let profiles = game_profiles();
    let output = listing(&["explorer.exe", "CS2.exe"]);
    assert_eq!(check_initial_game_state(Some(&output), &profiles), game("cs2"));
    assert_eq!(check_initial_game_state(None, &profiles), None);
    assert_eq!(check_initial_game_state(Some(&listing(&["explorer.exe"])), &profiles), None);
}

#[test]
fn polling_valorant_four_times_notifies_once() {
    let mut tracker = DebouncedTracker::new(game_profiles());
    let output = listing(&["VALORANT.exe"]);
    let mut sent = Vec::new();
    for _ in 0..4 {
        sent.push(tracker.poll(Some(&output)));
    }
    assert_eq!(sent, vec![None, Some(TrackerUpdate { game: game("valorant") }), None, None]);
    assert_eq!(tracker.current(), game("valorant"));
}

#[test]
fn polling_survives_two_failed_queries() {
    let mut tracker = DebouncedTracker::new(game_profiles());
    let running = listing(&["svchost.exe", "cs2.exe"]);
    assert_eq!(tracker.poll(Some(&running)), None);
    assert_eq!(tracker.poll(Some(&running)), Some(TrackerUpdate { game: game("cs2") }));
    assert_eq!(tracker.poll(None), None);
    assert_eq!(tracker.poll(Some(b"")), None);
    assert_eq!(tracker.current(), game("cs2"));
    assert_eq!(tracker.poll(Some(&running)), None);
    assert_eq!(tracker.current(), game("cs2"));
}

#[test]
fn polling_three_failed_queries_ends_the_game() {
    let mut tracker = DebouncedTracker::new(game_profiles());
    let running = listing(&["League of Legends.exe"]);
    assert_eq!(tracker.poll(Some(&running)), None);
    assert_eq!(tracker.poll(Some(&running)), Some(TrackerUpdate { game: game("lol") }));
    assert_eq!(tracker.poll(None), None);
    assert_eq!(tracker.poll(None), None);
    assert_eq!(tracker.poll(None), Some(TrackerUpdate { game: None }));
    assert_eq!(tracker.current(), None);
}
