use fas_rs::config::{
    check_counter_final, filter_scene_games, should_rollback, Config, ConfigData, GameEntry,
    SceneApp,
};

fn snapshot() -> Config {
    Config {
        data: ConfigData {
            keep_std: Config::default_value_keep_std(),
            userspace_governor: Config::default_value_userspace_governor(),
            scene_game_list: Config::default_value_scene_game_list(),
            game_list: vec![
                GameEntry { pkg: String::from("com.game.one"), fps: 60 },
                GameEntry { pkg: String::from("com.game.two"), fps: 120 },
            ],
            scene_games: Vec::new(),
        },
    }
}

#[test]
fn default_profile_values() {
    assert!(Config::default_value_keep_std());
    assert!(!Config::default_value_userspace_governor());
    assert!(Config::default_value_scene_game_list());
}

#[test]
fn target_fps_finds_the_configured_entry() {
    let c = snapshot();
    assert_eq!(c.target_fps(&String::from("com.game.one")), Some(60));
    assert_eq!(c.target_fps(&String::from("com.game.two")), Some(120));
}

#[test]
fn target_fps_is_absent_for_untracked_packages() {
    let c = snapshot();
    assert_eq!(c.target_fps(&String::from("com.launcher")), None);
}

#[test]
fn retry_counter_trips_past_the_limit() {
    let mut retries: u8 = 11;
    assert!(check_counter_final(&mut retries));
    assert_eq!(retries, 0);
}

#[test]
fn retry_counter_holds_at_the_limit() {
    let mut retries: u8 = 10;
    assert!(!check_counter_final(&mut retries));
    assert_eq!(retries, 10);
}

#[test]
fn rollback_waits_for_repeated_parse_failures() {
    assert!(!should_rollback(3));
    assert!(should_rollback(4));
}

#[test]
fn scene_profile_keeps_only_games() {
    let apps = vec![
        SceneApp { pkg: String::from("com.game.a"), is_game: true },
        SceneApp { pkg: String::from("com.browser"), is_game: false },
        SceneApp { pkg: String::from("com.game.b"), is_game: true },
    ];
    let games = filter_scene_games(&apps);
    assert_eq!(games, vec![String::from("com.game.a"), String::from("com.game.b")]);
}

#[test]
fn scene_profile_may_be_empty() {
    let games = filter_scene_games(&Vec::new());
    assert!(games.is_empty());
}
