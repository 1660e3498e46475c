//! The error taxonomy of the update pipeline.
//!
//! Every pipeline stage reports failure through one of these variants, so a
//! caller can render a specific message; none of them is ever allowed to
//! take the previously working install down with it.

use vstd::prelude::*;

verus! {

/// Everything that can go wrong along the pipeline, one variant per stage.
#[derive(Clone, Copy, Debug, PartialEq, Eq, Structural)]
pub enum LauncherError {
    /// The connectivity probe failed or the network is unreachable. Treated
    /// as being offline and retried later, never as fatal.
    Connectivity,
    /// The manifest could not be fetched or did not deserialize.
    Manifest,
    /// The archive download broke off mid-stream.
    Download,
    /// The downloaded archive's digest does not equal the manifest checksum.
    ChecksumMismatch,
    /// The archive was malformed or an entry could not be extracted.
    Extraction,
    /// Promoting the staged bundle into the live directory failed.
    InstallSwap,
    /// The installed version does not equal the manifest version; launch denied.
    VersionMismatch,
    /// No manifest is present in memory; launch denied.
    NoManifest,
    /// The installed executable could not be spawned.
    LaunchFailed,
}

/// The description each error variant carries to the shell.
pub open spec fn spec_error_message(e: LauncherError) -> Seq<char> {
    match e {
        LauncherError::Connectivity => "offline: the update server is unreachable"@,
        LauncherError::Manifest => "the manifest could not be fetched or parsed"@,
        LauncherError::Download => "the download failed before it completed"@,
        LauncherError::ChecksumMismatch => "checksum verification failed"@,
        LauncherError::Extraction => "the downloaded archive could not be extracted"@,
        LauncherError::InstallSwap => "the staged install could not be moved into place"@,
        LauncherError::VersionMismatch => "the installed version is out of date"@,
        LauncherError::NoManifest => "no manifest loaded"@,
        LauncherError::LaunchFailed => "the game executable could not be started"@,
    }
}

impl LauncherError {
    /// A short human-readable description for the shell's error events.
    pub fn message(&self) -> (m: &'static str)
        ensures
            m@ == spec_error_message(*self),
    {
        match self {
            LauncherError::Connectivity => "offline: the update server is unreachable",
            LauncherError::Manifest => "the manifest could not be fetched or parsed",
            LauncherError::Download => "the download failed before it completed",
            LauncherError::ChecksumMismatch => "checksum verification failed",
            LauncherError::Extraction => "the downloaded archive could not be extracted",
            LauncherError::InstallSwap => "the staged install could not be moved into place",
            LauncherError::VersionMismatch => "the installed version is out of date",
            LauncherError::NoManifest => "no manifest loaded",
            LauncherError::LaunchFailed => "the game executable could not be started",
        }
    }
}

} // verus!
