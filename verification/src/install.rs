//! The atomic install pipeline: verify, extract, stage, swap.
//!
//! The pipeline is decided and proved over a model of the two filesystem
//! locations it may touch; the surrounding binary mirrors every model
//! mutation onto the real disk, step for step, and feeds back the one
//! outcome the model cannot know: whether the final rename succeeded.
//! The swap follows the safe ordering — rename the old live directory
//! aside, rename staging into place, only then delete the old one — so a
//! failed swap always leaves the previous install fully intact, and a
//! successful one the new install in full: the live directory is never a
//! mixture and never half-written.

use vstd::prelude::*;
use vstd::string::StringExecFns;

verus! {

use crate::archive::{
    extract_zip, spec_archive_ok, spec_stage, spec_stage_dirs, spec_zip_parse, ArchiveEntry,
    ZipEntrySpec,
};
use crate::checksum::{spec_checksum_ok, verify_hash};
use crate::errors::LauncherError;

/// A complete bundle: the regular files and directories extracted from an
/// archive, and the Local Version Marker written beside them before the
/// swap, so marker and content always move as one unit.
pub struct BundleModel {
    pub files: Vec<ArchiveEntry>,
    pub dirs: Vec<String>,
    pub marker: String,
}

/// Mathematical image of a bundle.
pub struct BundleSpec {
    pub files: Seq<ZipEntrySpec>,
    pub dirs: Seq<Seq<char>>,
    pub marker: Seq<char>,
}

impl View for BundleModel {
    type V = BundleSpec;

    open spec fn view(&self) -> BundleSpec {
        BundleSpec {
            files: self.files.deep_view(),
            dirs: self.dirs.deep_view(),
            marker: self.marker@,
        }
    }
}

impl DeepView for BundleModel {
    type V = BundleSpec;

    open spec fn deep_view(&self) -> BundleSpec {
        self.view()
    }
}

/// Model of the persistent locations the installer owns: the live install
/// directory (the only location the launch gate ever reads) and the
/// temporary downloaded archive in the cache area. Staging is scratch
/// space recreated on every attempt and needs no place here.
pub struct DiskModel {
    pub live: Option<BundleModel>,
    pub temp_archive: bool,
}

/// Mathematical image of the disk model.
pub struct DiskSpec {
    pub live: Option<BundleSpec>,
    pub temp_archive: bool,
}

impl View for DiskModel {
    type V = DiskSpec;

    open spec fn view(&self) -> DiskSpec {
        DiskSpec { live: self.live.deep_view(), temp_archive: self.temp_archive }
    }
}

/// The bundle a successful install of `bytes` as `version` leaves live:
/// the safely extractable files and directories of the archive, and the
/// marker holding exactly the target version string.
pub open spec fn spec_installed_bundle(bytes: Seq<u8>, version: Seq<char>) -> BundleSpec {
    BundleSpec {
        files: spec_stage(spec_zip_parse(bytes)->0),
        dirs: spec_stage_dirs(spec_zip_parse(bytes)->0),
        marker: version,
    }
}

/// The verify → extract → stage-marker → swap tail of the update pipeline,
/// on the disk model. `bytes` is the fully downloaded archive (already
/// streamed to the temporary file by the surrounding binary), `checksum`
/// the manifest's expected value, `version` the manifest version being
/// installed, and `swap_ok` whether the single rename of staging into the
/// live path went through on the real disk.
///
/// The checksum gate is absolute: a mismatching archive deletes the
/// temporary file and stops the pipeline before any extraction, and no
/// failure of any stage ever touches the previous live install.
pub fn download_and_install_game(
    disk: &mut DiskModel,
    bytes: &Vec<u8>,
    checksum: &str,
    version: &str,
    swap_ok: bool,
) -> (r: Result<(), LauncherError>)
    ensures
        r == Err::<(), LauncherError>(LauncherError::ChecksumMismatch) <==> !spec_checksum_ok(
            bytes@,
            checksum@,
        ),
        r == Err::<(), LauncherError>(LauncherError::Extraction) <==> spec_checksum_ok(
            bytes@,
            checksum@,
        ) && !spec_archive_ok(bytes@),
        r == Err::<(), LauncherError>(LauncherError::InstallSwap) <==> spec_checksum_ok(
            bytes@,
            checksum@,
        ) && spec_archive_ok(bytes@) && !swap_ok,
        r is Ok <==> spec_checksum_ok(bytes@, checksum@) && spec_archive_ok(bytes@) && swap_ok,
        r is Ok ==> final(disk)@.live == Some(spec_installed_bundle(bytes@, version@)),
        r is Err ==> final(disk)@.live == old(disk)@.live,
        final(disk)@.live == old(disk)@.live || final(disk)@.live == Some(
            spec_installed_bundle(bytes@, version@),
        ),
        !spec_checksum_ok(bytes@, checksum@) ==> !final(disk)@.temp_archive,
        r is Ok ==> !final(disk)@.temp_archive,
{
    if !verify_hash(bytes, checksum) {
        disk.temp_archive = false;
        return Err(LauncherError::ChecksumMismatch);
    }
    let (files, dirs) = match extract_zip(bytes) {
        Ok(out) => out,
        Err(_) => { return Err(LauncherError::Extraction) },
    };
    let staged = BundleModel { files, dirs, marker: String::from_str(version) };
    if !swap_ok {
        return Err(LauncherError::InstallSwap);
    }
    disk.live = Some(staged);
    disk.temp_archive = false;
    Ok(())
}

/// Law: a successful install leaves the Local Version Marker holding
/// exactly the version the attempt was started for — the manifest's
/// latest version — swapped in together with the bundle content.
pub proof fn lemma_marker_matches_manifest(
    bytes: Seq<u8>,
    m: crate::manifest::GameManifestView,
)
    ensures
        spec_installed_bundle(bytes, m.latest_version).marker == m.latest_version,
{
}

} // verus!
