use launcher::config::{CloseBehavior, LauncherConfig};
use launcher::errors::LauncherError;
use launcher::game::{get_local_version, launch_game, version_eq};
use launcher::manifest::{FetchOutcome, GameManifest, ManifestCache};
use launcher::paths::{get_cache_dir, get_game_dir};
use launcher::progress::{apply_chunk, progress_percent, progress_reports, InstallPhase};
use launcher::state::{
    finish_download, get_manifest, resolve_checking, set_download_progress, start_download,
    AppState, DownloadAction, GameStatus,
};

fn manifest(version: &str) -> GameManifest {
    GameManifest {
        game_name: "Skyshard".to_string(),
        game_exe: Some("game.exe".to_string()),
        latest_version: version.to_string(),
        game_zip: "https://example.com/game.zip".to_string(),
        checksum: "sha256:0000".to_string(),
        server_status: Some("online".to_string()),
        maintenance_message: None,
        backgrounds: vec!["bg1.png".to_string()],
        sidebar_links: Some(vec![("forum".to_string(), "https://example.com/f".to_string())]),
        news: Vec::new(),
        languages: vec!["en".to_string(), "vi".to_string()],
    }
}

#[test]
fn launch_permitted_iff_versions_match_and_manifest_present() {
    let m = Some(manifest("1.2.0"));
    assert_eq!(launch_game(&m, "1.2.0"), Ok(()));
    assert_eq!(launch_game(&m, "1.1.0"), Err(LauncherError::VersionMismatch));
    assert_eq!(launch_game(&None, "1.2.0"), Err(LauncherError::NoManifest));
}

#[test]
fn second_start_download_is_a_no_op() {
    let mut state = AppState::new();
    state.manifest = Some(manifest("2.0.0"));
    let first = start_download(&mut state);
    assert_eq!(first, Ok(DownloadAction::Begin));
    assert_eq!(state.status, GameStatus::Downloading(0));
    let second = start_download(&mut state);
    assert_eq!(second, Ok(DownloadAction::AlreadyRunning));
    assert_eq!(state.status, GameStatus::Downloading(0));
}

#[test]
fn start_download_without_manifest_is_rejected() {
    let mut state = AppState::new();
    assert_eq!(start_download(&mut state), Err(LauncherError::NoManifest));
    assert_eq!(state.status, GameStatus::Checking);
}

#[test]
fn finish_download_settles_the_status() {
    let mut state = AppState::new();
    state.manifest = Some(manifest("2.0.0"));
    start_download(&mut state).unwrap();
    finish_download(&mut state, false);
    assert_eq!(state.status, GameStatus::UpdateAvailable);
    start_download(&mut state).unwrap();
    finish_download(&mut state, true);
    assert_eq!(state.status, GameStatus::ReadyToPlay);
}

#[test]
fn progress_is_published_while_downloading() {
    let mut state = AppState::new();
    state.manifest = Some(manifest("2.0.0"));
    start_download(&mut state).unwrap();
    set_download_progress(&mut state, 42);
    assert_eq!(state.status, GameStatus::Downloading(42));
}

#[test]
fn resolve_checking_follows_probe_and_version() {
    assert_eq!(resolve_checking(false, "1.0.0", "1.0.0"), GameStatus::Offline);
    assert_eq!(resolve_checking(true, "1.0.0", "1.0.0"), GameStatus::ReadyToPlay);
    assert_eq!(resolve_checking(true, "0.0.0", "1.0.0"), GameStatus::UpdateAvailable);
}

#[test]
fn version_comparison_is_exact() {
    assert!(version_eq("1.2.0", "1.2.0"));
    assert!(!version_eq("1.2.0", "1.2"));
    assert!(!version_eq("1.2.0", "1.2.1"));
    assert!(!version_eq("", "1.2.0"));
    assert!(version_eq("", ""));
}

#[test]
fn local_version_reads_marker_trimmed() {
    assert_eq!(get_local_version(Some("1.2.0")), "1.2.0");
    assert_eq!(get_local_version(Some("  1.2.0\r\n")), "1.2.0");
    assert_eq!(get_local_version(Some("\n\t \n")), "");
    assert_eq!(get_local_version(None), "0.0.0");
}

#[test]
fn cached_manifest_survives_a_failed_fetch() {
    let mut cache = ManifestCache { stored: None };
    let ok = cache.fetch_manifest(FetchOutcome::Fetched(manifest("3.1.4")), true);
    assert!(ok.is_ok());
    let failed = cache.fetch_manifest(FetchOutcome::BadBody, true);
    assert_eq!(failed.err(), Some(LauncherError::Manifest));
    let loaded = cache.load_cached_manifest().expect("cache must survive");
    assert_eq!(loaded.latest_version, "3.1.4");
    assert_eq!(loaded.game_name, "Skyshard");
}

#[test]
fn get_manifest_offline_serves_cache_and_sets_offline() {
    let mut state = AppState::new();
    let mut cache = ManifestCache { stored: Some(manifest("5.0.0")) };
    let r = get_manifest(&mut state, &mut cache, false, false, FetchOutcome::Unreachable, true);
    assert_eq!(r.unwrap().latest_version, "5.0.0");
    assert_eq!(state.status, GameStatus::Offline);
    assert_eq!(state.manifest.as_ref().unwrap().latest_version, "5.0.0");
}

#[test]
fn get_manifest_offline_without_cache_fails() {
    let mut state = AppState::new();
    let mut cache = ManifestCache { stored: None };
    let r = get_manifest(&mut state, &mut cache, false, false, FetchOutcome::Unreachable, true);
    assert_eq!(r.err(), Some(LauncherError::Connectivity));
    assert_eq!(state.status, GameStatus::Offline);
    assert!(state.manifest.is_none());
}

#[test]
fn get_manifest_prefers_the_manifest_in_memory() {
    let mut state = AppState::new();
    state.manifest = Some(manifest("6.0.0"));
    let mut cache = ManifestCache { stored: None };
    let r = get_manifest(&mut state, &mut cache, true, false, FetchOutcome::Unreachable, true);
    assert_eq!(r.unwrap().latest_version, "6.0.0");
    assert!(cache.stored.is_none());
}

#[test]
fn get_manifest_fetches_and_caches_when_forced() {
    let mut state = AppState::new();
    state.manifest = Some(manifest("6.0.0"));
    let mut cache = ManifestCache { stored: None };
    let r = get_manifest(&mut state, &mut cache, true, true, FetchOutcome::Fetched(manifest("7.0.0")), true);
    assert_eq!(r.unwrap().latest_version, "7.0.0");
    assert_eq!(state.manifest.as_ref().unwrap().latest_version, "7.0.0");
    assert_eq!(cache.stored.as_ref().unwrap().latest_version, "7.0.0");
    assert_eq!(state.status, GameStatus::Checking);
}

#[test]
fn get_manifest_fetch_failure_keeps_cache_and_memory() {
    let mut state = AppState::new();
    let mut cache = ManifestCache { stored: Some(manifest("5.0.0")) };
    let r = get_manifest(&mut state, &mut cache, true, true, FetchOutcome::BadBody, true);
    assert_eq!(r.err(), Some(LauncherError::Manifest));
    assert_eq!(cache.stored.as_ref().unwrap().latest_version, "5.0.0");
    assert!(state.manifest.is_none());
}

#[test]
fn fetch_errors_name_the_failing_stage() {
    let mut state = AppState::new();
    let mut cache = ManifestCache { stored: None };
    let r = get_manifest(&mut state, &mut cache, true, true, FetchOutcome::Unreachable, true);
    assert_eq!(r.err(), Some(LauncherError::Connectivity));
    let r = get_manifest(&mut state, &mut cache, true, true, FetchOutcome::BadStatus, true);
    assert_eq!(r.err(), Some(LauncherError::Manifest));
    let r = get_manifest(&mut state, &mut cache, true, true, FetchOutcome::BadBody, true);
    assert_eq!(r.err(), Some(LauncherError::Manifest));
    assert!(cache.stored.is_none());
    assert!(state.manifest.is_none());
}

#[test]
fn progress_reports_for_four_even_chunks() {
    let chunks: Vec<usize> = vec![250, 250, 250, 250];
    let reports = progress_reports(&chunks, 1000);
    assert_eq!(reports, vec![25, 50, 75, 100]);
    assert!(reports.windows(2).all(|w| w[0] <= w[1]));
    assert_eq!(*reports.last().unwrap(), 100);
}

#[test]
fn progress_is_clamped_when_the_server_over_delivers() {
    let chunks: Vec<usize> = vec![600, 600];
    let reports = progress_reports(&chunks, 1000);
    assert_eq!(reports, vec![60, 100]);
}

#[test]
fn progress_is_indeterminate_without_a_total() {
    let chunks: Vec<usize> = vec![100, 100];
    let reports = progress_reports(&chunks, 0);
    assert_eq!(reports, vec![0, 0]);
    assert_eq!(progress_percent(5, 0), 0);
}

#[test]
fn chunk_accounting_is_clamped() {
    assert_eq!(apply_chunk(0, 250, 1000), 250);
    assert_eq!(apply_chunk(900, 250, 1000), 1000);
    assert_eq!(apply_chunk(0, 10, 0), 0);
}

#[test]
fn default_config_is_well_defined() {
    let c = LauncherConfig::default();
    assert_eq!(c.language, "en");
    assert!(matches!(c.close_behavior, CloseBehavior::MinimizeToTray));
    assert!(!c.launch_at_startup);
}

#[test]
fn config_load_falls_back_to_defaults() {
    let c = LauncherConfig::load(None);
    assert_eq!(c.language, "en");
    let stored = LauncherConfig {
        language: "vi".to_string(),
        close_behavior: CloseBehavior::Exit,
        launch_at_startup: true,
    };
    let c = LauncherConfig::load(Some(stored));
    assert_eq!(c.language, "vi");
    assert!(matches!(c.close_behavior, CloseBehavior::Exit));
    assert!(c.launch_at_startup);
}

#[test]
fn well_known_directories_derive_from_the_base() {
    assert_eq!(get_game_dir("/opt/launcher"), "/opt/launcher/game");
    assert_eq!(get_cache_dir("/opt/launcher"), "/opt/launcher/cache");
}

#[test]
fn error_messages_are_specific() {
    assert_eq!(LauncherError::ChecksumMismatch.message(), "checksum verification failed");
    assert_eq!(LauncherError::NoManifest.message(), "no manifest loaded");
    assert_ne!(
        LauncherError::VersionMismatch.message(),
        LauncherError::NoManifest.message()
    );
}

#[test]
fn initial_state_is_checking_with_defaults() {
    let state = AppState::new();
    assert!(state.manifest.is_none());
    assert_eq!(state.status, GameStatus::Checking);
    assert_eq!(state.get_config().language, "en");
}

#[test]
fn saved_config_is_what_get_config_returns() {
    let mut state = AppState::new();
    let cfg = LauncherConfig {
        language: "jp".to_string(),
        close_behavior: CloseBehavior::Exit,
        launch_at_startup: true,
    };
    state.save_config(cfg);
    let back = state.get_config();
    assert_eq!(back.language, "jp");
    assert!(matches!(back.close_behavior, CloseBehavior::Exit));
    assert!(back.launch_at_startup);
    assert_eq!(state.status, GameStatus::Checking);
}

#[test]
fn phase_labels_are_the_documented_ones() {
    assert_eq!(InstallPhase::Downloading.label(), "Downloading");
    assert_eq!(InstallPhase::Verifying.label(), "Verifying");
    assert_eq!(InstallPhase::Installing.label(), "Installing");
}
