//! Integrity gate for downloaded archives.
//!
//! A downloaded archive may only reach installation when its SHA-256 digest,
//! hex encoded, equals the checksum the manifest announced — compared by
//! exact, case-sensitive string equality after an optional `<algorithm>:`
//! tag (such as `sha256:`) has been stripped from the manifest value.

use sha2::Digest;
use vstd::prelude::*;
use vstd::string::StrSliceExecFns;

verus! {

/// The lowercase hex digit for a value below 16.
pub open spec fn spec_hex_digit(v: u8) -> char
    recommends
        v < 16,
{
    if v < 10 {
        (('0' as u8) + v) as char
    } else {
        (('a' as u8) + (v - 10)) as char
    }
}

/// Lowercase hex encoding: two digits for each byte, in input order.
pub open spec fn spec_hex_lower(data: Seq<u8>) -> Seq<char>
    decreases data.len(),
{
    if data.len() == 0 {
        Seq::empty()
    } else {
        seq![spec_hex_digit(data.first() / 16), spec_hex_digit(data.first() % 16)]
            + spec_hex_lower(data.drop_first())
    }
}

/// The SHA-256 digest of a byte sequence. Left undefined here: computing it
/// is delegated to the sha2 crate, and the digest depends on the input bytes
/// alone.
pub uninterp spec fn spec_sha256(data: Seq<u8>) -> Seq<u8>;

/// Relies on sha2::Sha256::digest: returns the 32-byte SHA-256 digest of the
/// input, determined by the input bytes alone.
#[verifier::external_body]
fn sha256_digest(data: &[u8]) -> (r: Vec<u8>)
    ensures
        r@ == spec_sha256(data@),
        r@.len() == 32,
{
    sha2::Sha256::digest(data).to_vec()
}

/// Relies on hex::encode: two lowercase hex digits for each input byte, in
/// order.
#[verifier::external_body]
fn hex_encode(data: &Vec<u8>) -> (r: String)
    ensures
        r@ == spec_hex_lower(data@),
{
    hex::encode(data)
}

/// Whether the value carries an algorithm tag: hex digits never hold a
/// colon, so any colon marks the end of a tag.
pub open spec fn spec_has_colon(s: Seq<char>) -> bool {
    exists|i: int| 0 <= i < s.len() && s[i] == ':'
}

/// A manifest checksum with an optional leading `<algorithm>:` tag (such
/// as `sha256:`), reduced to the bare hex digits that are compared:
/// everything up to and including the first colon is the tag and is
/// stripped; a value without a colon is already bare.
pub open spec fn spec_strip_algo_prefix(s: Seq<char>) -> Seq<char>
    decreases s.len(),
{
    if !spec_has_colon(s) {
        s
    } else if s.first() == ':' {
        s.drop_first()
    } else {
        spec_strip_algo_prefix(s.drop_first())
    }
}

/// The checksum gate: the archive's hex-encoded SHA-256 digest equals the
/// manifest checksum after prefix stripping.
pub open spec fn spec_checksum_ok(data: Seq<u8>, expected: Seq<char>) -> bool {
    spec_hex_lower(spec_sha256(data)) == spec_strip_algo_prefix(expected)
}

proof fn lemma_strip_at_first_colon(s: Seq<char>, k: int)
    requires
        0 <= k < s.len(),
        s[k] == ':',
        forall|j: int| 0 <= j < k ==> s[j] != ':',
    ensures
        spec_strip_algo_prefix(s) == s.skip(k + 1),
    decreases k,
{
    assert(spec_has_colon(s)) by {
        assert(0 <= k < s.len() && s[k] == ':');
    }
    if k == 0 {
        assert(s.skip(1) =~= s.drop_first());
    } else {
        lemma_strip_at_first_colon(s.drop_first(), k - 1);
        assert(s.drop_first().skip(k) =~= s.skip(k + 1));
    }
}

/// Strips a leading `<algorithm>:` tag, if present, from a manifest
/// checksum value.
fn strip_algo_prefix(s: &str) -> (r: String)
    ensures
        r@ == spec_strip_algo_prefix(s@),
{
    let n = s.unicode_len();
    let mut i: usize = 0;
    while i < n
        invariant
            0 <= i <= n == s@.len(),
            forall|j: int| 0 <= j < i ==> s@[j] != ':',
        decreases n - i,
    {
        if s.get_char(i) == ':' {
            proof {
                lemma_strip_at_first_colon(s@, i as int);
                assert(s@.skip(i as int + 1) =~= s@.subrange(i as int + 1, n as int));
            }
            return s.substring_char(i + 1, n).to_owned();
        }
        i += 1;
    }
    assert(!spec_has_colon(s@)) by {
        if exists|j: int| 0 <= j < s@.len() && s@[j] == ':' {
            let j = choose|j: int| 0 <= j < s@.len() && s@[j] == ':';
            assert(s@[j] != ':');
        }
    }
    s.to_owned()
}

/// Decides whether a downloaded archive passes the integrity gate for the
/// manifest checksum `expected`.
pub fn verify_hash(data: &Vec<u8>, expected: &str) -> (ok: bool)
    ensures
        ok == spec_checksum_ok(data@, expected@),
{
    let digest = sha256_digest(data.as_slice());
    let digest_hex = hex_encode(&digest);
    let stripped = strip_algo_prefix(expected);
    digest_hex == stripped
}

} // verus!
