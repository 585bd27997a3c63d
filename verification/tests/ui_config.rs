use gbksync::config::{get_config_path, AppConfig, FileConfig, FileRepoConfig};
use gbksync::ui::{calc_repos, repo_details, repo_display_name, repo_rows, selected_repo, status_label, AppState};

fn temp_repo(name: &str) -> String {
    format!("/tmp/gbksync-tests/{}", name)
}

#[test]
fn test_init_app_config() {
    let config = AppConfig::init(&FileConfig::default()).ok().unwrap();
    assert_eq!(config.get_repos().len(), 0);
    assert_eq!(config.to_file_config().repos.len(), 0);
    let file = FileConfig {
        repos: vec![FileRepoConfig { repo_path: temp_repo("init-save"), stated: false, id: "s".to_string() }],
    };
    let saved = AppConfig::init(&file).ok().unwrap().to_file_config();
    assert_eq!(saved.repos.len(), 1);
    assert_eq!(saved.repos[0].repo_path, file.repos[0].repo_path);
    assert_eq!(saved.repos[0].stated, file.repos[0].stated);
    assert_eq!(saved.repos[0].id, file.repos[0].id);
}

#[test]
fn init_opens_each_repository_not_started() {
    let file = FileConfig {
        repos: vec![
            FileRepoConfig { repo_path: temp_repo("init-a"), stated: true, id: "id-a".to_string() },
            FileRepoConfig { repo_path: temp_repo("init-b"), stated: false, id: "id-b".to_string() },
        ],
    };
    let config = AppConfig::init(&file).ok().unwrap();
    let repos = config.get_repos();
    assert_eq!(repos.len(), 2);
    assert_eq!(repos[0].path, temp_repo("init-a"));
    assert_eq!(repos[0].id, "id-a");
    assert!(!repos[0].started);
    assert_eq!(repos[1].service.repo_path, temp_repo("init-b"));
    assert_eq!(repos[1].service.interval(), 10);
    assert!(!repos[1].service.running());
    let saved = config.to_file_config();
    assert_eq!(saved.repos[0].repo_path, temp_repo("init-a"));
    assert!(!saved.repos[0].stated);
    assert_eq!(saved.repos[1].id, "id-b");
}

#[test]
fn reload_of_saved_configuration_is_the_same() {
    let file = FileConfig {
        repos: vec![FileRepoConfig { repo_path: temp_repo("reload"), stated: true, id: "r".to_string() }],
    };
    let once = AppConfig::init(&file).ok().unwrap().to_file_config();
    let twice = AppConfig::init(&once).ok().unwrap().to_file_config();
    assert_eq!(once.repos.len(), twice.repos.len());
    assert_eq!(once.repos[0].repo_path, twice.repos[0].repo_path);
    assert_eq!(once.repos[0].stated, twice.repos[0].stated);
    assert_eq!(once.repos[0].id, twice.repos[0].id);
}

#[test]
fn add_appends_a_repository_with_a_uuid() {
    let mut config = AppConfig::new();
    assert!(config.add(temp_repo("add-one")).is_ok());
    assert!(config.add(temp_repo("add-two")).is_ok());
    let repos = config.get_repos();
    assert_eq!(repos.len(), 2);
    assert_eq!(repos[1].path, temp_repo("add-two"));
    assert!(!repos[1].started);
    let id = &repos[1].id;
    assert_eq!(id.len(), 36);
    assert_eq!(id.chars().nth(14), Some('4'));
    assert!(id.chars().enumerate().all(|(i, c)| if [8, 13, 18, 23].contains(&i) { c == '-' } else { c.is_ascii_hexdigit() && !c.is_ascii_uppercase() }));
    assert_ne!(repos[0].id, repos[1].id);
}

#[test]
fn add_of_unopenable_path_changes_nothing() {
    let mut config = AppConfig::new();
    assert!(config.add("/proc/gbksync-cannot-create".to_string()).is_err());
    assert_eq!(config.get_repos().len(), 0);
}

#[test]
fn config_path_under_home() {
    assert_eq!(get_config_path(Some("/Users/me")), "/Users/me/Library/Application Support/gbksync/config.json");
    assert_eq!(get_config_path(Some("/Users/me/")), "/Users/me/Library/Application Support/gbksync/config.json");
    assert_eq!(get_config_path(Some("")), "Library/Application Support/gbksync/config.json");
    assert_eq!(get_config_path(None), "config.json");
}

#[test]
fn display_name_is_last_path_segment() {
    assert_eq!(repo_display_name("/Users/me/notes"), "notes");
    assert_eq!(repo_display_name("notes"), "notes");
    assert_eq!(repo_display_name("/Users/me/notes/"), "");
    assert_eq!(repo_display_name(""), "");
}

#[test]
fn status_labels() {
    assert_eq!(status_label(true), "started");
    assert_eq!(status_label(false), "stopped");
}

#[test]
fn selection_drives_rows_and_details() {
    let mut config = AppConfig::new();
    assert!(config.add(temp_repo("sel-a")).is_ok());
    assert!(config.add(temp_repo("sel-b")).is_ok());
    let second = config.get_repos()[1].id.clone();
    let mut state = AppState::new();
    assert_eq!(state.current_id(), "");
    let details = repo_details(config.get_repos(), &state.current_id());
    assert_eq!(details.index, None);
    assert_eq!(details.path, "");
    assert_eq!(details.status, "");

    state.select(second.clone());
    let current = state.current_id();
    assert_eq!(selected_repo(config.get_repos(), &current), Some(1));
    let rows = repo_rows(config.get_repos(), &current);
    assert_eq!(rows.len(), 2);
    assert_eq!(rows[0].label, "sel-a");
    assert!(!rows[0].highlighted);
    assert!(rows[1].highlighted);
    let details = repo_details(config.get_repos(), &current);
    assert_eq!(details.index, Some(1));
    assert_eq!(details.path, temp_repo("sel-b"));
    assert_eq!(details.status, "stopped");

    assert!(config.repo_mut(1).service.toggle());
    let details = repo_details(config.get_repos(), &current);
    assert_eq!(details.status, "started");
}

#[test]
fn calc_repos_gives_fresh_copies() {
    let mut config = AppConfig::new();
    assert!(config.add(temp_repo("calc")).is_ok());
    config.repo_mut(0).service.start();
    let repos = calc_repos(&config).ok().unwrap();
    assert_eq!(repos.len(), 1);
    assert_eq!(repos[0].path, temp_repo("calc"));
    assert_eq!(repos[0].id, config.get_repos()[0].id);
    assert!(!repos[0].service.running());
}
