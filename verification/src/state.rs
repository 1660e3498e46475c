//! Shared launcher state and the status state machine.
//!
//! Exactly one authoritative status exists at a time. It starts as
//! Checking, is resolved by the reconciler from connectivity and the
//! version comparison, and is claimed by the download pipeline while an
//! attempt is in flight. Claiming it is also the mutual exclusion that
//! keeps a second attempt from ever running concurrently. The surrounding
//! binary holds this state behind its locks and keeps every mutation to
//! the functions here.

use vstd::prelude::*;

verus! {

use crate::config::LauncherConfig;
use crate::errors::LauncherError;
use crate::game::version_eq;
use crate::manifest::{
    spec_cache_after_fetch, spec_fetch_error, spec_fetched_manifest, FetchOutcome, GameManifest,
    ManifestCache,
};

/// The one authoritative application status the shell displays and the
/// launch gate consults. Download progress is carried in whole percent.
#[derive(Clone, Copy, Debug, PartialEq, Eq, Structural)]
pub enum GameStatus {
    ReadyToPlay,
    UpdateAvailable,
    Downloading(u8),
    Updating,
    Checking,
    Offline,
    Missing,
}

/// The process-wide state container: settings, the manifest in memory,
/// and the authoritative status.
pub struct AppState {
    pub config: LauncherConfig,
    pub manifest: Option<GameManifest>,
    pub status: GameStatus,
}

impl AppState {
    /// The state every run starts from: default settings, no manifest in
    /// memory yet, and Checking until the first reconciliation resolves it.
    pub fn new() -> (s: AppState)
        ensures
            crate::config::spec_default_config(s.config),
            s.manifest is None,
            s.status == GameStatus::Checking,
    {
        AppState {
            config: LauncherConfig::default(),
            manifest: None,
            status: GameStatus::Checking,
        }
    }
}

impl AppState {
    /// Hands the shell the current settings.
    pub fn get_config(&self) -> (c: LauncherConfig)
        ensures
            c == self.config,
    {
        self.config.clone()
    }

    /// Replaces the settings in memory; persisting them to disk is the
    /// surrounding binary's work.
    pub fn save_config(&mut self, config: LauncherConfig)
        ensures
            final(self).config == config,
            final(self).manifest == old(self).manifest,
            final(self).status == old(self).status,
    {
        self.config = config;
    }
}

/// Answers the shell's manifest request. The connectivity probe, the HTTP
/// fetch and the cache file I/O are the surrounding binary's work; their
/// outcomes arrive as `online`, `fetched` and `write_ok`. A fetch is
/// consulted only on the branches that fetch: online with a refresh
/// forced, or online with no manifest in memory yet; a failed fetch
/// surfaces the error of exactly the stage that failed. Offline, the
/// cached manifest substitutes for display purposes, the status turns
/// Offline, and with no cache either the request fails.
pub fn get_manifest(
    state: &mut AppState,
    cache: &mut ManifestCache,
    online: bool,
    force_refresh: bool,
    fetched: FetchOutcome,
    write_ok: bool,
) -> (r: Result<GameManifest, LauncherError>)
    ensures
        final(state).config == old(state).config,
        !online ==> ({
            &&& final(state).status == GameStatus::Offline
            &&& *final(cache) == *old(cache)
            &&& (old(cache).stored matches Some(c) ==> r is Ok && r->Ok_0@ == c@
                && final(state).manifest.deep_view() == Some(c@))
            &&& (old(cache).stored is None ==> r == Err::<GameManifest, LauncherError>(
                LauncherError::Connectivity,
            ) && final(state).manifest == old(state).manifest)
        }),
        online && !force_refresh && old(state).manifest is Some ==> ({
            &&& *final(state) == *old(state)
            &&& *final(cache) == *old(cache)
            &&& r is Ok && r->Ok_0@ == old(state).manifest->0@
        }),
        online && (force_refresh || old(state).manifest is None) ==> ({
            &&& final(cache).stored.deep_view() == spec_cache_after_fetch(
                old(cache).stored.deep_view(),
                spec_fetched_manifest(fetched),
                write_ok,
            )
            &&& (fetched matches FetchOutcome::Fetched(m) ==> r is Ok && r->Ok_0@ == m@
                && final(state).manifest.deep_view() == Some(m@))
            &&& (!(fetched is Fetched) ==> r == Err::<GameManifest, LauncherError>(
                spec_fetch_error(fetched),
            ) && final(state).manifest == old(state).manifest)
            &&& final(state).status == (if force_refresh && fetched is Fetched {
                GameStatus::Checking
            } else {
                old(state).status
            })
        }),
{
    if !online {
        state.status = GameStatus::Offline;
        match cache.load_cached_manifest() {
            Some(c) => {
                let out = c.clone();
                state.manifest = Some(c);
                Ok(out)
            },
            None => Err(LauncherError::Connectivity),
        }
    } else if !force_refresh && state.manifest.is_some() {
        match &state.manifest {
            Some(m) => Ok(m.clone()),
            None => Err(LauncherError::Manifest),
        }
    } else {
        match cache.fetch_manifest(fetched, write_ok) {
            Ok(m) => {
                let out = m.clone();
                state.manifest = Some(m);
                if force_refresh {
                    state.status = GameStatus::Checking;
                }
                Ok(out)
            },
            Err(e) => Err(e),
        }
    }
}

/// Whether an install attempt is in flight: the statuses that must turn a
/// second start request away.
pub open spec fn spec_busy(s: GameStatus) -> bool {
    s is Downloading || s is Updating
}

/// What a start-download request decided.
#[derive(Clone, Copy, Debug, PartialEq, Eq, Structural)]
pub enum DownloadAction {
    /// The request claimed the status: exactly this caller runs the
    /// pipeline, starting from progress 0.
    Begin,
    /// An attempt is already in flight; the request is a no-op.
    AlreadyRunning,
}

/// The answer `start_download` gives, as a function of the state it found.
pub open spec fn spec_start_decision(status: GameStatus, has_manifest: bool) -> Result<
    DownloadAction,
    LauncherError,
> {
    if !has_manifest {
        Err(LauncherError::NoManifest)
    } else if spec_busy(status) {
        Ok(DownloadAction::AlreadyRunning)
    } else {
        Ok(DownloadAction::Begin)
    }
}

/// The status `start_download` leaves behind: claimed as Downloading(0)
/// exactly when the request was granted.
pub open spec fn spec_status_after_start(status: GameStatus, has_manifest: bool) -> GameStatus {
    if has_manifest && !spec_busy(status) {
        GameStatus::Downloading(0)
    } else {
        status
    }
}

/// Decides a start-download request. Without a manifest in memory there is
/// nothing to download; while an attempt is in flight the request is a
/// no-op — never queued, never run concurrently. Otherwise the status is
/// claimed and the caller alone runs the pipeline.
pub fn start_download(state: &mut AppState) -> (r: Result<DownloadAction, LauncherError>)
    ensures
        r == spec_start_decision(old(state).status, old(state).manifest is Some),
        final(state).status == spec_status_after_start(
            old(state).status,
            old(state).manifest is Some,
        ),
        final(state).manifest == old(state).manifest,
        final(state).config == old(state).config,
{
    if state.manifest.is_none() {
        return Err(LauncherError::NoManifest);
    }
    match state.status {
        GameStatus::Downloading(_) => Ok(DownloadAction::AlreadyRunning),
        GameStatus::Updating => Ok(DownloadAction::AlreadyRunning),
        _ => {
            state.status = GameStatus::Downloading(0);
            Ok(DownloadAction::Begin)
        },
    }
}

/// Law: at most one pipeline execution. Once a start request has been
/// granted, any further request made before the attempt finishes is a
/// no-op and leaves the state exactly as it found it.
pub proof fn lemma_second_start_is_rejected(status: GameStatus, has_manifest: bool)
    requires
        spec_start_decision(status, has_manifest) == Ok::<DownloadAction, LauncherError>(
            DownloadAction::Begin,
        ),
    ensures
        ({
            let claimed = spec_status_after_start(status, has_manifest);
            &&& spec_start_decision(claimed, true) == Ok::<DownloadAction, LauncherError>(
                DownloadAction::AlreadyRunning,
            )
            &&& spec_status_after_start(claimed, true) == claimed
        }),
{
}

/// Publishes a progress report while a download is in flight.
pub fn set_download_progress(state: &mut AppState, percent: u8)
    requires
        percent <= 100,
        spec_busy(old(state).status),
    ensures
        final(state).status == GameStatus::Downloading(percent),
        final(state).manifest == old(state).manifest,
        final(state).config == old(state).config,
{
    state.status = GameStatus::Downloading(percent);
}

/// Settles the status once a pipeline attempt ends: on success the new
/// bundle is live and ready to play; on failure the state reverts to
/// UpdateAvailable, a retryable state, never a fatal one.
pub fn finish_download(state: &mut AppState, success: bool)
    ensures
        final(state).status == if success {
            GameStatus::ReadyToPlay
        } else {
            GameStatus::UpdateAvailable
        },
        final(state).manifest == old(state).manifest,
        final(state).config == old(state).config,
{
    if success {
        state.status = GameStatus::ReadyToPlay;
    } else {
        state.status = GameStatus::UpdateAvailable;
    }
}

/// Resolves Checking: a failed connectivity probe means Offline regardless
/// of any cached manifest (the cache serves presentation only, never the
/// launch decision); otherwise the installed version is compared to the
/// manifest's latest version by exact string equality.
pub fn resolve_checking(online: bool, local_version: &str, latest_version: &str) -> (s: GameStatus)
    ensures
        !online ==> s == GameStatus::Offline,
        online && local_version@ == latest_version@ ==> s == GameStatus::ReadyToPlay,
        online && local_version@ != latest_version@ ==> s == GameStatus::UpdateAvailable,
{
    if !online {
        GameStatus::Offline
    } else if version_eq(local_version, latest_version) {
        GameStatus::ReadyToPlay
    } else {
        GameStatus::UpdateAvailable
    }
}

} // verus!
