use std::io::{Cursor, Write};

use launcher::archive::{entry_path_ok, extract_zip, is_dir_name};
use zip::write::SimpleFileOptions;
use zip::ZipWriter;

fn build_zip(entries: &[(&str, Option<&[u8]>)]) -> Vec<u8> {
    let mut writer = ZipWriter::new(Cursor::new(Vec::new()));
    let options = SimpleFileOptions::default();
    for (name, data) in entries {
        match data {
            Some(bytes) => {
                writer.start_file(*name, options).unwrap();
                writer.write_all(bytes).unwrap();
            }
            None => {
                writer.add_directory(*name, options).unwrap();
            }
        }
    }
    writer.finish().unwrap().into_inner()
}

#[test]
fn safe_paths_are_accepted() {
    assert!(entry_path_ok("a.txt"));
    assert!(entry_path_ok("dir/sub/file.bin"));
    assert!(entry_path_ok("oddly..named.txt"));
    assert!(entry_path_ok("dir/.hidden"));
}

#[test]
fn traversal_paths_are_rejected() {
    assert!(!entry_path_ok(".."));
    assert!(!entry_path_ok("../evil.txt"));
    assert!(!entry_path_ok("dir/../evil.txt"));
    assert!(!entry_path_ok("dir/.."));
    assert!(!entry_path_ok("/etc/shadow"));
    assert!(!entry_path_ok("c:/windows/system32"));
    assert!(!entry_path_ok("dir\\file.txt"));
    assert!(!entry_path_ok(""));
}

#[test]
fn directory_names_are_recognized() {
    assert!(is_dir_name("dir/"));
    assert!(is_dir_name("a/b/"));
    assert!(!is_dir_name("a/b"));
    assert!(!is_dir_name(""));
}

#[test]
fn extraction_yields_regular_files_in_order() {
    let bytes = build_zip(&[
        ("game.exe", Some(b"binary".as_slice())),
        ("assets/", None),
        ("assets/map.dat", Some(b"terrain".as_slice())),
    ]);
    let (files, dirs) = extract_zip(&bytes).unwrap();
    assert_eq!(files.len(), 2);
    assert_eq!(files[0].name, "game.exe");
    assert_eq!(files[0].data, b"binary".to_vec());
    assert_eq!(files[1].name, "assets/map.dat");
    assert_eq!(files[1].data, b"terrain".to_vec());
    assert_eq!(dirs, vec!["assets/".to_string()]);
}

#[test]
fn empty_directory_entries_are_staged() {
    let bytes = build_zip(&[
        ("saves/", None),
        ("mods/", None),
        ("readme.txt", Some(b"hello".as_slice())),
    ]);
    let (files, dirs) = extract_zip(&bytes).unwrap();
    assert_eq!(files.len(), 1);
    assert_eq!(dirs, vec!["saves/".to_string(), "mods/".to_string()]);
}

#[test]
fn unsafe_directory_entries_are_skipped() {
    let bytes = build_zip(&[("../outside/", None), ("inside/", None)]);
    let (files, dirs) = extract_zip(&bytes).unwrap();
    assert!(files.is_empty());
    assert_eq!(dirs, vec!["inside/".to_string()]);
}

#[test]
fn unsafe_entries_are_skipped_not_extracted() {
    let bytes = build_zip(&[
        ("ok.txt", Some(b"fine".as_slice())),
        ("../escape.txt", Some(b"evil".as_slice())),
    ]);
    let (files, _dirs) = extract_zip(&bytes).unwrap();
    assert_eq!(files.len(), 1);
    assert_eq!(files[0].name, "ok.txt");
}

#[test]
fn malformed_archive_is_rejected() {
    let bytes: Vec<u8> = b"this is not a zip archive".to_vec();
    assert!(extract_zip(&bytes).is_err());
}

#[test]
fn empty_archive_yields_no_files() {
    let bytes = build_zip(&[]);
    let (files, dirs) = extract_zip(&bytes).unwrap();
    assert!(files.is_empty());
    assert!(dirs.is_empty());
}
