//! Reading the downloaded archive and deciding what may be extracted.
//!
//! The zip crate parses the archive and decompresses its entries; this
//! module wraps those calls and keeps every decision about them verified:
//! which entry paths are safe, which entries become staged files and
//! directories, and in what order. An entry whose encoded path could
//! escape the staging root is skipped, never extracted — a required
//! defensive check.

use vstd::prelude::*;
use vstd::string::StrSliceExecFns;

verus! {

use crate::errors::LauncherError;

#[verifier::external_type_specification]
#[verifier::external_body]
#[verifier::reject_recursive_types(T)]
pub struct ExCursor<T>(std::io::Cursor<T>);

#[verifier::external_type_specification]
#[verifier::external_body]
#[verifier::reject_recursive_types(R)]
pub struct ExZipArchive<R>(zip::ZipArchive<R>);

/// Mathematical image of one archive entry: its path inside the archive,
/// its uncompressed content, and whether the member can actually be
/// decompressed (a corrupt, truncated or encrypted member cannot). A
/// directory entry's path ends in `/` and its content is empty.
pub struct ZipEntrySpec {
    pub name: Seq<char>,
    pub data: Seq<u8>,
    pub readable: bool,
}

/// One archive entry, as handed out by the reader.
#[derive(Debug)]
pub struct ArchiveEntry {
    pub name: String,
    pub data: Vec<u8>,
}

impl View for ArchiveEntry {
    type V = ZipEntrySpec;

    open spec fn view(&self) -> ZipEntrySpec {
        ZipEntrySpec { name: self.name@, data: self.data@, readable: true }
    }
}

impl DeepView for ArchiveEntry {
    type V = ZipEntrySpec;

    open spec fn deep_view(&self) -> ZipEntrySpec {
        self.view()
    }
}

/// What the zip crate's parse yields for these bytes: the entry table in
/// archive order, each entry with its decompressed content and whether
/// its member decompresses at all, or nothing when the central directory
/// itself is unreadable. Left undefined here: it is a function of the
/// bytes alone, computed by the zip crate.
pub uninterp spec fn spec_zip_parse(bytes: Seq<u8>) -> Option<Seq<ZipEntrySpec>>;

/// A fully extractable archive: the entry table parses and every member
/// decompresses.
pub open spec fn spec_archive_ok(bytes: Seq<u8>) -> bool {
    &&& spec_zip_parse(bytes) is Some
    &&& (forall|i: int|
        0 <= i < spec_zip_parse(bytes)->0.len() ==> spec_zip_parse(bytes)->0[i].readable)
}

/// The entries an opened archive value holds.
pub uninterp spec fn spec_zip_entries(a: zip::ZipArchive<std::io::Cursor<Vec<u8>>>) -> Seq<
    ZipEntrySpec,
>;

/// Relies on zip::ZipArchive::new: opening in-memory bytes succeeds
/// exactly when they parse as a zip archive (the central directory is
/// read), and the opened archive holds the parsed entries.
#[verifier::external_body]
fn zip_open(bytes: &Vec<u8>) -> (r: Option<zip::ZipArchive<std::io::Cursor<Vec<u8>>>>)
    ensures
        r is Some <==> spec_zip_parse(bytes@) is Some,
        r matches Some(a) ==> spec_zip_entries(a) == spec_zip_parse(bytes@)->0,
{
    zip::ZipArchive::new(std::io::Cursor::new(bytes.clone())).ok()
}

/// Relies on zip::ZipArchive::len: the number of entries in the archive.
#[verifier::external_body]
fn zip_len(archive: &zip::ZipArchive<std::io::Cursor<Vec<u8>>>) -> (n: usize)
    ensures
        n == spec_zip_entries(*archive).len(),
{
    archive.len()
}

/// Relies on zip::ZipArchive::by_index and the entry's Read impl: reading
/// entry `i` yields its name and decompresses its full content, moving
/// the archive's reader but not what the archive holds. On an in-memory
/// cursor the read fails exactly when the member itself cannot be
/// decompressed (corrupt, truncated or encrypted) — a fact of the bytes
/// alone, which the entry's `readable` flag names.
#[verifier::external_body]
fn zip_read_entry(archive: &mut zip::ZipArchive<std::io::Cursor<Vec<u8>>>, i: usize) -> (r: Option<
    ArchiveEntry,
>)
    requires
        i < spec_zip_entries(*old(archive)).len(),
    ensures
        spec_zip_entries(*final(archive)) == spec_zip_entries(*old(archive)),
        r is Some <==> spec_zip_entries(*old(archive))[i as int].readable,
        r matches Some(e) ==> e@ == spec_zip_entries(*old(archive))[i as int],
{
    let mut file = match archive.by_index(i) {
        Ok(f) => f,
        Err(_) => return None,
    };
    let name = file.name().to_string();
    let mut data = Vec::new();
    if std::io::Read::read_to_end(&mut file, &mut data).is_err() {
        return None;
    }
    Some(ArchiveEntry { name, data })
}

/// A `..` path component starting at position `i`.
pub open spec fn spec_parent_at(s: Seq<char>, i: int) -> bool {
    &&& 0 <= i
    &&& i + 2 <= s.len()
    &&& s[i] == '.'
    &&& s[i + 1] == '.'
    &&& (i == 0 || s[i - 1] == '/')
    &&& (i + 2 == s.len() || s[i + 2] == '/')
}

/// Whether the path contains a parent-directory component anywhere.
pub open spec fn spec_has_parent_component(s: Seq<char>) -> bool {
    exists|i: int| spec_parent_at(s, i)
}

/// The defensive check every entry path must pass before extraction: no
/// empty path, no absolute path, no backslash separators, no drive-letter
/// colons, and no `..` components — nothing that could place an entry
/// outside the staging root.
pub open spec fn spec_entry_path_ok(s: Seq<char>) -> bool {
    &&& s.len() > 0
    &&& s[0] != '/'
    &&& (forall|i: int| 0 <= i < s.len() ==> s[i] != '\\' && s[i] != ':')
    &&& !spec_has_parent_component(s)
}

/// Whether the entry names a directory rather than a regular file.
pub open spec fn spec_is_dir_name(s: Seq<char>) -> bool {
    s.len() > 0 && s.last() == '/'
}

/// Decides whether an entry path is safe to extract under the staging root.
pub fn entry_path_ok(s: &str) -> (r: bool)
    ensures
        r == spec_entry_path_ok(s@),
{
    let n = s.unicode_len();
    if n == 0 {
        return false;
    }
    if s.get_char(0) == '/' {
        return false;
    }
    let mut i: usize = 0;
    while i < n
        invariant
            0 <= i <= n == s@.len(),
            n > 0,
            s@[0] != '/',
            forall|j: int| 0 <= j < i ==> s@[j] != '\\' && s@[j] != ':',
            forall|j: int| 0 <= j < i ==> !spec_parent_at(s@, j),
        decreases n - i,
    {
        let c = s.get_char(i);
        if c == '\\' || c == ':' {
            return false;
        }
        if c == '.' && n - i >= 2 && s.get_char(i + 1) == '.' {
            let boundary_before = i == 0 || s.get_char(i - 1) == '/';
            let boundary_after = n - i == 2 || s.get_char(i + 2) == '/';
            if boundary_before && boundary_after {
                assert(spec_parent_at(s@, i as int));
                return false;
            }
        }
        i += 1;
    }
    assert(!spec_has_parent_component(s@)) by {
        if exists|j: int| spec_parent_at(s@, j) {
            let j = choose|j: int| spec_parent_at(s@, j);
            assert(0 <= j < n);
        }
    }
    true
}

/// Decides whether an entry names a directory.
pub fn is_dir_name(s: &str) -> (r: bool)
    ensures
        r == spec_is_dir_name(s@),
{
    let n = s.unicode_len();
    n > 0 && s.get_char(n - 1) == '/'
}

/// Whether an entry becomes a staged file: its path is safe and it is not
/// a directory entry.
pub open spec fn spec_keep_entry(e: ZipEntrySpec) -> bool {
    spec_entry_path_ok(e.name) && !spec_is_dir_name(e.name)
}

/// Whether an entry becomes a staged directory: its path is safe and it
/// names a directory.
pub open spec fn spec_keep_dir_entry(e: ZipEntrySpec) -> bool {
    spec_entry_path_ok(e.name) && spec_is_dir_name(e.name)
}

/// The staged files an entry listing produces: the kept entries, in
/// archive order.
pub open spec fn spec_stage(entries: Seq<ZipEntrySpec>) -> Seq<ZipEntrySpec>
    decreases entries.len(),
{
    if entries.len() == 0 {
        Seq::empty()
    } else {
        let prefix = spec_stage(entries.drop_last());
        if spec_keep_entry(entries.last()) {
            prefix.push(entries.last())
        } else {
            prefix
        }
    }
}

/// The staged directories an entry listing produces: the safe directory
/// entries' paths, in archive order.
pub open spec fn spec_stage_dirs(entries: Seq<ZipEntrySpec>) -> Seq<Seq<char>>
    decreases entries.len(),
{
    if entries.len() == 0 {
        Seq::empty()
    } else {
        let prefix = spec_stage_dirs(entries.drop_last());
        if spec_keep_dir_entry(entries.last()) {
            prefix.push(entries.last().name)
        } else {
            prefix
        }
    }
}

/// Reads a downloaded archive and yields what is staged from it, in
/// archive order: the regular files to write (path and content) and the
/// directory entries to create — exactly those whose encoded path passes
/// the traversal check. An unsafe path is skipped, never extracted.
/// Succeeds if and only if the archive is fully extractable: the entry
/// table parses and every member decompresses.
pub fn extract_zip(bytes: &Vec<u8>) -> (r: Result<(Vec<ArchiveEntry>, Vec<String>), LauncherError>)
    ensures
        r is Ok <==> spec_archive_ok(bytes@),
        r matches Ok(out) ==> spec_zip_parse(bytes@) matches Some(entries) && out.0.deep_view()
            == spec_stage(entries) && out.1.deep_view() == spec_stage_dirs(entries),
        r matches Err(e) ==> e == LauncherError::Extraction,
{
    let mut archive = match zip_open(bytes) {
        Some(a) => a,
        None => { return Err(LauncherError::Extraction) },
    };
    let ghost entries = spec_zip_entries(archive);
    let n = zip_len(&archive);
    let mut files: Vec<ArchiveEntry> = Vec::new();
    let mut dirs: Vec<String> = Vec::new();
    let mut i: usize = 0;
    while i < n
        invariant
            0 <= i <= n == entries.len(),
            spec_zip_entries(archive) == entries,
            spec_zip_parse(bytes@) == Some(entries),
            forall|j: int| 0 <= j < i ==> entries[j].readable,
            files.deep_view() == spec_stage(entries.subrange(0, i as int)),
            dirs.deep_view() == spec_stage_dirs(entries.subrange(0, i as int)),
        decreases n - i,
    {
        let entry = match zip_read_entry(&mut archive, i) {
            Some(e) => e,
            None => {
                assert(!spec_archive_ok(bytes@)) by {
                    assert(spec_zip_parse(bytes@)->0 == entries);
                    assert(!spec_zip_parse(bytes@)->0[i as int].readable);
                }
                return Err(LauncherError::Extraction);
            },
        };
        let ghost ev = entry@;
        let ghost files_before = files.deep_view();
        let ghost dirs_before = dirs.deep_view();
        let safe = entry_path_ok(entry.name.as_str());
        let dir = is_dir_name(entry.name.as_str());
        if safe && !dir {
            files.push(entry);
        } else if safe && dir {
            dirs.push(entry.name);
        }
        proof {
            assert(entries.subrange(0, i as int + 1).drop_last() =~= entries.subrange(0, i as int));
            assert(entries.subrange(0, i as int + 1).last() == entries[i as int]);
            if safe && !dir {
                assert forall|j: int| 0 <= j < files.deep_view().len() implies files.deep_view()[j]
                    == files_before.push(ev)[j] by {
                    assert(files.deep_view()[j] == files@[j].deep_view());
                }
                assert(files.deep_view() =~= files_before.push(ev));
            } else if safe && dir {
                assert forall|j: int| 0 <= j < dirs.deep_view().len() implies dirs.deep_view()[j]
                    == dirs_before.push(ev.name)[j] by {
                    assert(dirs.deep_view()[j] == dirs@[j].deep_view());
                }
                assert(dirs.deep_view() =~= dirs_before.push(ev.name));
            }
        }
        i += 1;
    }
    proof {
        assert(entries.subrange(0, n as int) =~= entries);
    }
    Ok((files, dirs))
}

} // verus!
