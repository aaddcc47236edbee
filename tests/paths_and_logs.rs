use dotupdater::appvars::{
    config_file_in, config_folder_in, get_complete_config_file_path, get_complete_log_file_path,
    get_logfile_path, join_dir, prepend_dir, APP_NAME, CONFIG_FILE, LOGDIR, LOGFILE,
};
use dotupdater::config::{resolve_targets, resolve_targets_under, Config, RepositoryConfig};
use dotupdater::config::RepositoryTarget;
use dotupdater::init::{
    config_file_plan, config_file_result, config_folder_result, initialize, setup_record,
    start_message, SetupStep,
};
use dotupdater::logger::{cause_words, log_line, outcome_record, start_record, EventType};
use dotupdater::sync::{FailureCause, SkipReason, SyncOutcome};

#[test]
fn paths_are_joined_with_one_separator() {
    assert_eq!(join_dir("/home/alice/.config", "nvim"), "/home/alice/.config/nvim");
    assert_eq!(config_folder_in("/home/alice/.config"), "/home/alice/.config/dotupdater");
    assert_eq!(config_file_in("/x/dotupdater"), "/x/dotupdater/config.toml");
    assert_eq!(get_complete_log_file_path(), "/var/tmp/dotupdater_logs/");
    assert_eq!(get_logfile_path(), "/var/tmp/dotupdater_logs/dotupdater.log");
    assert_eq!(APP_NAME, "dotupdater");
    assert_eq!(CONFIG_FILE, "config.toml");
    assert_eq!(LOGDIR, "/var/tmp/dotupdater_logs/");
    assert_eq!(LOGFILE, "dotupdater.log");
}

#[test]
fn config_dir_paths_end_with_their_names() {
    if let Some(p) = get_complete_config_file_path() {
        assert!(p.ends_with("/dotupdater"));
        assert!(p.len() > "/dotupdater".len());
    }
    if let Some(p) = prepend_dir("nvim".to_string()) {
        assert!(p.ends_with("/nvim"));
        assert!(p.len() > "/nvim".len());
    }
}

fn sample_config() -> Config {
    Config {
        repositories: vec![
            RepositoryConfig { path: "nvim".to_string(), branch: "main".to_string() },
            RepositoryConfig { path: "kitty".to_string(), branch: "dev".to_string() },
        ],
    }
}

#[test]
fn targets_keep_configuration_order() {
    let ts = resolve_targets_under(&sample_config(), "/home/bob/.config");
    assert_eq!(ts.len(), 2);
    assert_eq!(ts[0].local_path, "/home/bob/.config/nvim");
    assert_eq!(ts[0].branch_name, "main");
    assert_eq!(ts[1].local_path, "/home/bob/.config/kitty");
    assert_eq!(ts[1].branch_name, "dev");
    if let Some(ts) = resolve_targets(&sample_config()) {
        assert_eq!(ts.len(), 2);
        assert!(ts[0].local_path.ends_with("/nvim"));
        assert!(ts[1].local_path.ends_with("/kitty"));
    }
    let empty = resolve_targets_under(&Config { repositories: Vec::new() }, "/b");
    assert!(empty.is_empty());
}

#[test]
fn log_line_layout() {
    let e = EventType::W("watch out".to_string());
    assert_eq!(log_line("2024-01-02 03:04:05", &e), "2024-01-02 03:04:05 - [W] - watch out");
    assert_eq!(log_line("t", &EventType::I("m".to_string())), "t - [I] - m");
    assert_eq!(log_line("t", &EventType::N("m".to_string())), "t - [!!] - m");
    assert_eq!(log_line("t", &EventType::E("m".to_string())), "t - [E] - m");
}

fn tgt() -> RepositoryTarget {
    RepositoryTarget { local_path: "/c/nvim".to_string(), branch_name: "main".to_string() }
}

#[test]
fn outcome_severity_and_text() {
    let t = tgt();
    match outcome_record(SyncOutcome::NoUpdate, &t) {
        EventType::I(m) => assert_eq!(m, "No recent updates on this repo."),
        _ => panic!("wrong severity"),
    }
    match outcome_record(SyncOutcome::Updated, &t) {
        EventType::I(m) => {
            assert_eq!(m, "Pulling recent updates for repo: /c/nvim found in the branch: main")
        }
        _ => panic!("wrong severity"),
    }
    match outcome_record(SyncOutcome::Skipped(SkipReason::PathNotFound), &t) {
        EventType::I(m) => assert_eq!(m, "Folder /c/nvim does not exist."),
        _ => panic!("wrong severity"),
    }
    match outcome_record(SyncOutcome::Skipped(SkipReason::NonFastForward), &t) {
        EventType::W(m) => assert_eq!(
            m,
            "Branch main of /c/nvim has diverged from its remote - skipping updates."
        ),
        _ => panic!("wrong severity"),
    }
    match outcome_record(SyncOutcome::Failed(FailureCause::RemoteUnreachable), &t) {
        EventType::E(m) => {
            assert_eq!(m, "Synchronizing /c/nvim failed: remote unreachable - skipping updates.")
        }
        _ => panic!("wrong severity"),
    }
    for c in [
        FailureCause::NotARepository,
        FailureCause::RefMissing,
        FailureCause::ReferenceUpdateConflict,
        FailureCause::CheckoutFailure,
    ] {
        assert!(matches!(outcome_record(SyncOutcome::Failed(c), &t), EventType::E(_)));
    }
    assert_eq!(cause_words(FailureCause::CheckoutFailure), "checkout failure");
    match start_record(&t) {
        EventType::I(m) => assert_eq!(m, "Inspecting folder for a GitHub repo: /c/nvim"),
        _ => panic!("wrong severity"),
    }
}

#[test]
fn startup_sequence_order() {
    assert_eq!(
        initialize(),
        vec![
            SetupStep::CreateLogFolder,
            SetupStep::CreateLogFile,
            SetupStep::AnnounceStart,
            SetupStep::CreateConfigFolder,
            SetupStep::CreateConfigFile,
        ]
    );
    assert_eq!(start_message(), "Starting app...");
}

#[test]
fn config_folder_reports() {
    assert_eq!(
        config_folder_result(true, Ok(())),
        Err("Config folder is already in the right place.".to_string())
    );
    assert_eq!(
        config_folder_result(false, Ok(())),
        Ok("Config folder created successfully".to_string())
    );
    assert_eq!(
        config_folder_result(false, Err("denied".to_string())),
        Err("Config folder can't be created. Reason: denied".to_string())
    );
}

#[test]
fn config_file_plans_and_reports() {
    let p = config_file_plan(false, false);
    assert!(p.create_folder && p.write_file);
    let p = config_file_plan(true, false);
    assert!(!p.create_folder && p.write_file);
    let p = config_file_plan(true, true);
    assert!(!p.create_folder && !p.write_file);
    assert_eq!(
        config_file_result(p, Err("ignored".to_string())),
        Ok("Config file already created.".to_string())
    );
    let w = config_file_plan(true, false);
    assert_eq!(
        config_file_result(w, Ok(())),
        Ok("config.toml file created correctly".to_string())
    );
    assert_eq!(config_file_result(w, Err("disk full".to_string())), Err("disk full".to_string()));
}

#[test]
fn setup_records_by_result() {
    match setup_record(Ok("fine".to_string())) {
        EventType::I(m) => assert_eq!(m, "fine"),
        _ => panic!("wrong severity"),
    }
    match setup_record(Err("bad".to_string())) {
        EventType::E(m) => assert_eq!(m, "bad"),
        _ => panic!("wrong severity"),
    }
}

#[test]
fn stamped_line_ends_with_record() {
    let line = dotupdater::logger::stamped_line(&EventType::I("hello".to_string()));
    assert!(line.ends_with(" - [I] - hello"));
    assert!(line.len() > " - [I] - hello".len());
}
