//! The installed version marker and the launch gate.
//!
//! The Local Version Marker is a plain text file inside the live install
//! root holding the installed version string; it is read by trimming
//! surrounding whitespace, and its absence means "not installed",
//! represented by the sentinel version `0.0.0`. Launch is only ever
//! permitted when a manifest is present and the marker equals its latest
//! version exactly.

use vstd::prelude::*;
use vstd::string::{StrSliceExecFns, StringExecFns};

verus! {

use crate::errors::LauncherError;
use crate::manifest::GameManifest;

/// The whitespace characters stripped from the version marker.
pub open spec fn spec_is_ws(c: char) -> bool {
    c == ' ' || c == '\t' || c == '\r' || c == '\n'
}

/// A string with its leading whitespace removed.
pub open spec fn spec_trim_front(s: Seq<char>) -> Seq<char>
    decreases s.len(),
{
    if s.len() > 0 && spec_is_ws(s.first()) {
        spec_trim_front(s.drop_first())
    } else {
        s
    }
}

/// A string with its trailing whitespace removed.
pub open spec fn spec_trim_back(s: Seq<char>) -> Seq<char>
    decreases s.len(),
{
    if s.len() > 0 && spec_is_ws(s.last()) {
        spec_trim_back(s.drop_last())
    } else {
        s
    }
}

/// A string with surrounding whitespace removed.
pub open spec fn spec_trim(s: Seq<char>) -> Seq<char> {
    spec_trim_back(spec_trim_front(s))
}

/// The version that absence of a marker stands for: "not installed".
pub open spec fn spec_no_version() -> Seq<char> {
    "0.0.0"@
}

fn is_ws_char(c: char) -> (r: bool)
    ensures
        r == spec_is_ws(c),
{
    c == ' ' || c == '\t' || c == '\r' || c == '\n'
}

proof fn lemma_trim_front_skip(s: Seq<char>, i: int)
    requires
        0 <= i <= s.len(),
        forall|j: int| 0 <= j < i ==> spec_is_ws(s[j]),
        i == s.len() || !spec_is_ws(s[i]),
    ensures
        spec_trim_front(s) == s.skip(i),
    decreases i,
{
    if i == 0 {
        assert(s.skip(0) =~= s);
    } else {
        lemma_trim_front_skip(s.drop_first(), i - 1);
        assert(s.drop_first().skip(i - 1) =~= s.skip(i));
    }
}

proof fn lemma_trim_back_take(s: Seq<char>, e: int)
    requires
        -1 <= e < s.len(),
        forall|j: int| e < j < s.len() ==> spec_is_ws(s[j]),
        e == -1 || !spec_is_ws(s[e]),
    ensures
        spec_trim_back(s) == s.take(e + 1),
    decreases s.len() - e,
{
    if e + 1 == s.len() {
        assert(s.take(e + 1) =~= s);
    } else {
        lemma_trim_back_take(s.drop_last(), e);
        assert(s.drop_last().take(e + 1) =~= s.take(e + 1));
    }
}

/// The installed version, given what a read of the marker file yielded
/// (the file read itself is the surrounding binary's work): the marker
/// trimmed of surrounding whitespace, or the sentinel `0.0.0` when no
/// marker could be read.
pub fn get_local_version(marker: Option<&str>) -> (v: String)
    ensures
        marker is Some ==> v@ == spec_trim(marker->0@),
        marker is None ==> v@ == spec_no_version(),
{
    let s = match marker {
        Some(s) => s,
        None => { return String::from_str("0.0.0") },
    };
    let n = s.unicode_len();
    let mut start: usize = 0;
    while start < n && is_ws_char(s.get_char(start))
        invariant
            0 <= start <= n == s@.len(),
            forall|j: int| 0 <= j < start ==> spec_is_ws(s@[j]),
        decreases n - start,
    {
        start += 1;
    }
    let mut end: usize = n;
    while end > start && is_ws_char(s.get_char(end - 1))
        invariant
            start <= end <= n == s@.len(),
            forall|j: int| end <= j < n ==> spec_is_ws(s@[j]),
        decreases end,
    {
        end -= 1;
    }
    proof {
        lemma_trim_front_skip(s@, start as int);
        let t = s@.skip(start as int);
        lemma_trim_back_take(t, end - start - 1);
        assert(t.take(end - start as int) =~= s@.subrange(start as int, end as int));
    }
    s.substring_char(start, end).to_owned()
}

/// Exact string equality, the comparison every version check uses.
pub fn version_eq(a: &str, b: &str) -> (r: bool)
    ensures
        r == (a@ == b@),
{
    let na = a.unicode_len();
    let nb = b.unicode_len();
    if na != nb {
        return false;
    }
    let mut i: usize = 0;
    while i < na
        invariant
            0 <= i <= na == a@.len(),
            na == nb == b@.len(),
            forall|j: int| 0 <= j < i ==> a@[j] == b@[j],
        decreases na - i,
    {
        if a.get_char(i) != b.get_char(i) {
            assert(a@ != b@) by {
                assert(a@[i as int] != b@[i as int]);
            }
            return false;
        }
        i += 1;
    }
    assert(a@ =~= b@);
    true
}

/// The launch gate: launch is permitted if and only if a manifest is
/// present in memory and the installed version equals its latest version
/// by exact string equality. A missing manifest — including pure offline
/// operation — is a hard rejection; offline play is deliberately not
/// allowed, whatever is installed. Spawning the executable itself is
/// process work the surrounding binary performs only once this gate
/// grants it.
pub fn launch_game(manifest: &Option<GameManifest>, local_version: &str) -> (r: Result<
    (),
    LauncherError,
>)
    ensures
        r is Ok <==> (manifest matches Some(m) && local_version@ == m.latest_version@),
        r == Err::<(), LauncherError>(LauncherError::NoManifest) <==> manifest is None,
        r == Err::<(), LauncherError>(LauncherError::VersionMismatch) <==> (manifest matches Some(
            m,
        ) && local_version@ != m.latest_version@),
{
    match manifest {
        Some(m) => {
            if version_eq(local_version, m.latest_version.as_str()) {
                Ok(())
            } else {
                Err(LauncherError::VersionMismatch)
            }
        },
        None => Err(LauncherError::NoManifest),
    }
}

} // verus!
