use karabiner_rcmd_binder::config::persistence::{
    config_dir, config_dir_from, config_dir_in, config_path, config_path_from, config_path_in,
    join_path, scripts_dir, scripts_dir_from, scripts_dir_in, APP_NAME, CONFIG_FILE,
};
use karabiner_rcmd_binder::karabiner::backup::{
    backup_name, backups_to_remove, is_backup_name, karabiner_config_path,
    karabiner_config_path_from, karabiner_config_path_in, list_backups, sorted_backups,
    BACKUP_PREFIX, MAX_BACKUPS,
};

fn names(list: &[&str]) -> Vec<String> {
    list.iter().map(|s| s.to_string()).collect()
}

fn directory() -> Vec<String> {
    names(&[
        "karabiner.json.switchkey-backup-20240301-120000",
        "karabiner.json",
        "karabiner.json.switchkey-backup-20231231-235959",
        "assets",
        "karabiner.json.switchkey-backup-20240301-115959",
        "karabiner.json.switchkey-backup-20240102-000000",
        "automatic_backups",
        "karabiner.json.switchkey-backup-20240415-080000",
    ])
}

#[test]
fn test_karabiner_path() {
    let path = karabiner_config_path().unwrap();
    assert!(path.ends_with(".config/karabiner/karabiner.json"));
}

#[test]
fn paths_of_the_current_user_lie_under_one_home_directory() {
    let engine = karabiner_config_path().unwrap();
    let home = engine.strip_suffix(".config/karabiner/karabiner.json").unwrap();
    assert!(!home.is_empty());
    assert_eq!(config_dir(), Some(config_dir_in(home)));
    assert_eq!(config_path(), Some(config_path_in(home)));
    assert_eq!(scripts_dir(), Some(scripts_dir_in(home)));
    assert_eq!(std::path::PathBuf::from(home), dirs::home_dir().unwrap());
}

#[test]
fn paths_lie_under_the_home_directory() {
    assert_eq!(APP_NAME, "karabiner-rcmd-binder");
    assert_eq!(CONFIG_FILE, "config.toml");
    assert_eq!(join_path("/Users/me", ".config"), "/Users/me/.config");
    assert_eq!(join_path("/Users/me/", ".config"), "/Users/me/.config");
    assert_eq!(join_path("/", ".config"), "/.config");
    assert_eq!(join_path("", ".config"), ".config");
    assert_eq!(config_dir_in("/Users/me"), "/Users/me/.config/karabiner-rcmd-binder");
    assert_eq!(
        config_path_in("/Users/me"),
        "/Users/me/.config/karabiner-rcmd-binder/config.toml"
    );
    assert_eq!(scripts_dir_in("/Users/me/"), "/Users/me/.config/karabiner-rcmd-binder/scripts");
    assert_eq!(
        karabiner_config_path_in("/Users/me"),
        "/Users/me/.config/karabiner/karabiner.json"
    );
    for (base, segment) in [("/a", "b"), ("/a/", "b"), ("", "b"), ("/", "b"), ("a/b", "c/d")] {
        let expected = std::path::Path::new(base).join(segment);
        assert_eq!(join_path(base, segment), expected.to_str().unwrap());
    }
}

#[test]
fn backups_are_named_by_their_time() {
    assert_eq!(BACKUP_PREFIX, "karabiner.json.switchkey-backup-");
    assert_eq!(MAX_BACKUPS, 3);
    assert_eq!(backup_name("20240301-120000"), "karabiner.json.switchkey-backup-20240301-120000");
    assert!(is_backup_name("karabiner.json.switchkey-backup-20240301-120000"));
    assert!(is_backup_name("karabiner.json.switchkey-backup-"));
    assert!(!is_backup_name("karabiner.json"));
    assert!(!is_backup_name("old-karabiner.json.switchkey-backup-1"));
}

#[test]
fn backups_are_listed_by_age() {
    assert_eq!(
        sorted_backups(&directory()),
        names(&[
            "karabiner.json.switchkey-backup-20231231-235959",
            "karabiner.json.switchkey-backup-20240102-000000",
            "karabiner.json.switchkey-backup-20240301-115959",
            "karabiner.json.switchkey-backup-20240301-120000",
            "karabiner.json.switchkey-backup-20240415-080000",
        ])
    );
    let mut newest_first = sorted_backups(&directory());
    newest_first.reverse();
    assert_eq!(list_backups(&directory()), newest_first);
    assert_eq!(list_backups(&Vec::new()), Vec::<String>::new());
}

#[test]
fn the_oldest_backups_beyond_three_go() {
    assert_eq!(
        backups_to_remove(&directory()),
        names(&[
            "karabiner.json.switchkey-backup-20231231-235959",
            "karabiner.json.switchkey-backup-20240102-000000",
        ])
    );
    let three = names(&[
        "karabiner.json.switchkey-backup-3",
        "karabiner.json.switchkey-backup-1",
        "karabiner.json.switchkey-backup-2",
        "karabiner.json",
    ]);
    assert_eq!(backups_to_remove(&three), Vec::<String>::new());
    let mut four = three.clone();
    four.push("karabiner.json.switchkey-backup-0".to_string());
    assert_eq!(backups_to_remove(&four), names(&["karabiner.json.switchkey-backup-0"]));
    assert_eq!(backups_to_remove(&Vec::new()), Vec::<String>::new());
}

#[test]
fn paths_follow_the_outcome_of_the_home_lookup() {
    let found = Some("/Users/me".to_string());
    assert_eq!(
        config_dir_from(&found),
        Some("/Users/me/.config/karabiner-rcmd-binder".to_string())
    );
    assert_eq!(
        config_path_from(&found),
        Some("/Users/me/.config/karabiner-rcmd-binder/config.toml".to_string())
    );
    assert_eq!(
        scripts_dir_from(&found),
        Some("/Users/me/.config/karabiner-rcmd-binder/scripts".to_string())
    );
    assert_eq!(
        karabiner_config_path_from(&found),
        Some("/Users/me/.config/karabiner/karabiner.json".to_string())
    );
    assert_eq!(config_dir_from(&None), None);
    assert_eq!(config_path_from(&None), None);
    assert_eq!(scripts_dir_from(&None), None);
    assert_eq!(karabiner_config_path_from(&None), None);
    let empty = Some(String::new());
    assert_eq!(config_dir_from(&empty), Some(".config/karabiner-rcmd-binder".to_string()));
}
