use std::io::{Cursor, Write};

use launcher::archive::ArchiveEntry;
use launcher::errors::LauncherError;
use launcher::install::{download_and_install_game, BundleModel, DiskModel};
use sha2::{Digest, Sha256};
use zip::write::SimpleFileOptions;
use zip::ZipWriter;

fn build_zip(entries: &[(&str, &[u8])]) -> Vec<u8> {
    let mut writer = ZipWriter::new(Cursor::new(Vec::new()));
    let options = SimpleFileOptions::default();
    for (name, data) in entries {
        writer.start_file(*name, options).unwrap();
        writer.write_all(data).unwrap();
    }
    writer.finish().unwrap().into_inner()
}

fn checksum_of(bytes: &[u8]) -> String {
    hex::encode(Sha256::digest(bytes))
}

fn old_live() -> BundleModel {
    BundleModel {
        files: vec![ArchiveEntry { name: "old.txt".to_string(), data: b"old".to_vec() }],
        dirs: Vec::new(),
        marker: "1.0.0".to_string(),
    }
}

fn assert_is_old_live(disk: &DiskModel) {
    let live = disk.live.as_ref().expect("live install disappeared");
    assert_eq!(live.marker, "1.0.0");
    assert_eq!(live.files.len(), 1);
    assert_eq!(live.files[0].name, "old.txt");
    assert_eq!(live.files[0].data, b"old".to_vec());
}

#[test]
fn checksum_mismatch_never_reaches_install() {
    let bytes = build_zip(&[("game.exe", b"v2")]);
    let wrong = checksum_of(b"something else entirely");
    let mut disk = DiskModel { live: Some(old_live()), temp_archive: true };
    let r = download_and_install_game(&mut disk, &bytes, &wrong, "2.0.0", true);
    assert_eq!(r, Err(LauncherError::ChecksumMismatch));
    assert_is_old_live(&disk);
    assert!(!disk.temp_archive, "the corrupt download must be deleted");
}

#[test]
fn successful_install_writes_marker_of_target_version() {
    let bytes = build_zip(&[("game.exe", b"v2"), ("data/level.bin", b"maps")]);
    let checksum = checksum_of(&bytes);
    let mut disk = DiskModel { live: Some(old_live()), temp_archive: true };
    let r = download_and_install_game(&mut disk, &bytes, &checksum, "2.0.0", true);
    assert_eq!(r, Ok(()));
    let live = disk.live.as_ref().unwrap();
    assert_eq!(live.marker, "2.0.0");
    assert_eq!(live.files.len(), 2);
    assert_eq!(live.files[0].name, "game.exe");
    assert_eq!(live.files[1].name, "data/level.bin");
    assert_eq!(live.files[1].data, b"maps".to_vec());
    assert!(!disk.temp_archive, "the downloaded archive is cleaned up");
}

#[test]
fn tagged_checksum_is_accepted() {
    let bytes = build_zip(&[("game.exe", b"v2")]);
    let tagged = format!("sha256:{}", checksum_of(&bytes));
    let mut disk = DiskModel { live: None, temp_archive: true };
    let r = download_and_install_game(&mut disk, &bytes, &tagged, "2.0.0", true);
    assert_eq!(r, Ok(()));
    assert_eq!(disk.live.as_ref().unwrap().marker, "2.0.0");
}

#[test]
fn failed_swap_leaves_old_bundle_fully_live() {
    let bytes = build_zip(&[("sentinel-new.txt", b"only in new")]);
    let checksum = checksum_of(&bytes);
    let mut disk = DiskModel { live: Some(old_live()), temp_archive: true };
    let r = download_and_install_game(&mut disk, &bytes, &checksum, "2.0.0", false);
    assert_eq!(r, Err(LauncherError::InstallSwap));
    // fully the old bundle: the new sentinel file is nowhere in live
    assert_is_old_live(&disk);
    let live = disk.live.as_ref().unwrap();
    assert!(live.files.iter().all(|f| f.name != "sentinel-new.txt"));
}

#[test]
fn malformed_archive_fails_before_touching_live() {
    let bytes: Vec<u8> = b"garbage, not an archive".to_vec();
    let checksum = checksum_of(&bytes);
    let mut disk = DiskModel { live: Some(old_live()), temp_archive: true };
    let r = download_and_install_game(&mut disk, &bytes, &checksum, "2.0.0", true);
    assert_eq!(r, Err(LauncherError::Extraction));
    assert_is_old_live(&disk);
}

#[test]
fn traversal_entries_never_reach_the_staged_bundle() {
    let bytes = build_zip(&[("ok.txt", b"fine"), ("../evil.txt", b"evil")]);
    let checksum = checksum_of(&bytes);
    let mut disk = DiskModel { live: None, temp_archive: true };
    let r = download_and_install_game(&mut disk, &bytes, &checksum, "2.0.0", true);
    assert_eq!(r, Ok(()));
    let live = disk.live.as_ref().unwrap();
    assert_eq!(live.files.len(), 1);
    assert_eq!(live.files[0].name, "ok.txt");
}

#[test]
fn successful_install_stages_directory_entries() {
    let mut writer = ZipWriter::new(Cursor::new(Vec::new()));
    let options = SimpleFileOptions::default();
    writer.add_directory("saves/", options).unwrap();
    writer.start_file("game.exe", options).unwrap();
    writer.write_all(b"v2").unwrap();
    let bytes = writer.finish().unwrap().into_inner();
    let checksum = checksum_of(&bytes);
    let mut disk = DiskModel { live: None, temp_archive: true };
    let r = download_and_install_game(&mut disk, &bytes, &checksum, "2.0.0", true);
    assert_eq!(r, Ok(()));
    let live = disk.live.as_ref().unwrap();
    assert_eq!(live.dirs, vec!["saves/".to_string()]);
    assert_eq!(live.files.len(), 1);
    assert_eq!(live.files[0].name, "game.exe");
}
