//! Progress accounting for the streaming download.
//!
//! While the archive streams to the temporary file, a report is emitted
//! after every chunk as `received / total * 100`, in whole percent, clamped
//! so the value never exceeds 100 even when the server sends more bytes
//! than it declared. When the server declared no content length, progress
//! is indeterminate and reported as 0 until completion.

use vstd::arithmetic::div_mod::lemma_div_is_ordered;
use vstd::prelude::*;

verus! {

/// The pipeline stage a progress notification belongs to.
#[derive(Clone, Copy, Debug, PartialEq, Eq, Structural)]
pub enum InstallPhase {
    Downloading,
    Verifying,
    Installing,
}

/// The label each notification carries to the presentation layer.
pub open spec fn spec_phase_label(p: InstallPhase) -> Seq<char> {
    match p {
        InstallPhase::Downloading => "Downloading"@,
        InstallPhase::Verifying => "Verifying"@,
        InstallPhase::Installing => "Installing"@,
    }
}

impl InstallPhase {
    /// The short status label shown beside a progress value.
    pub fn label(&self) -> (l: &'static str)
        ensures
            l@ == spec_phase_label(*self),
    {
        match self {
            InstallPhase::Downloading => "Downloading",
            InstallPhase::Verifying => "Verifying",
            InstallPhase::Installing => "Installing",
        }
    }
}

/// Bytes counted as received once another chunk has arrived: the running
/// total, clamped to the declared total.
pub open spec fn spec_apply_chunk(received: int, chunk: int, total: int) -> int {
    if received + chunk <= total {
        received + chunk
    } else {
        total
    }
}

/// The progress value reported after `received` of `total` declared bytes.
pub open spec fn spec_progress(received: int, total: int) -> int {
    if total <= 0 {
        0
    } else if received >= total {
        100
    } else {
        received * 100 / total
    }
}

/// Advances the received-bytes counter by one chunk, clamped to the
/// declared total so the counter never runs past it.
pub fn apply_chunk(received: u64, chunk: usize, total: u64) -> (r: u64)
    ensures
        r == spec_apply_chunk(received as int, chunk as int, total as int),
{
    let c = chunk as u64;
    if received <= total && c <= total - received {
        received + c
    } else {
        total
    }
}

/// The progress report for `received` of `total` bytes, in whole percent,
/// between 0 and 100.
pub fn progress_percent(received: u64, total: u64) -> (p: u8)
    ensures
        p == spec_progress(received as int, total as int),
        p <= 100,
{
    if total == 0 {
        0
    } else if received >= total {
        100
    } else {
        proof {
            lemma_div_is_ordered(
                received as int * 100,
                total as int * 100,
                total as int,
            );
            assert(received as int * 100 <= total as int * 100) by (nonlinear_arith)
                requires
                    received as int <= total as int,
            ;
            assert(total as int * 100 / total as int == 100) by (nonlinear_arith)
                requires
                    total as int > 0,
            ;
        }
        ((received as u128) * 100 / (total as u128)) as u8
    }
}

/// Law: a progress report never decreases as received bytes accumulate.
pub proof fn lemma_progress_monotonic(r1: int, r2: int, total: int)
    requires
        0 <= r1 <= r2,
    ensures
        spec_progress(r1, total) <= spec_progress(r2, total),
{
    if total > 0 && r1 < total && r2 < total {
        assert(r1 * 100 <= r2 * 100) by (nonlinear_arith)
            requires
                r1 <= r2,
        ;
        lemma_div_is_ordered(r1 * 100, r2 * 100, total);
    } else if total > 0 && r1 < total && r2 >= total {
        assert(r1 * 100 <= total * 100) by (nonlinear_arith)
            requires
                r1 <= total,
        ;
        lemma_div_is_ordered(r1 * 100, total * 100, total);
        assert(total * 100 / total == 100) by (nonlinear_arith)
            requires
                total > 0,
        ;
    }
}

/// Law: every progress report lies between 0 and 100, whatever the
/// server declared and however many bytes actually arrived.
pub proof fn lemma_progress_bounded(received: int, total: int)
    requires
        received >= 0,
    ensures
        0 <= spec_progress(received, total) <= 100,
{
    if total > 0 && received < total {
        assert(received * 100 >= 0) by (nonlinear_arith)
            requires
                received >= 0,
        ;
        assert(received * 100 <= total * 100) by (nonlinear_arith)
            requires
                received <= total,
        ;
        lemma_div_is_ordered(0, received * 100, total);
        lemma_div_is_ordered(received * 100, total * 100, total);
        assert(total * 100 / total == 100) by (nonlinear_arith)
            requires
                total > 0,
        ;
    }
}

/// Law: once every declared byte has arrived, the report is exactly 100.
pub proof fn lemma_progress_complete(total: int)
    requires
        total > 0,
    ensures
        spec_progress(total, total) == 100,
{
}

/// Bytes counted as received after the first `k` chunks of a download.
pub open spec fn spec_received_after(chunks: Seq<usize>, k: int, total: int) -> int
    decreases k,
{
    if k <= 0 {
        0
    } else {
        spec_apply_chunk(spec_received_after(chunks, k - 1, total), chunks[k - 1] as int, total)
    }
}

/// The sum of the first `k` chunk sizes.
pub open spec fn spec_chunk_sum(chunks: Seq<usize>, k: int) -> int
    decreases k,
{
    if k <= 0 {
        0
    } else {
        spec_chunk_sum(chunks, k - 1) + chunks[k - 1]
    }
}

/// The received-bytes counter always equals the chunk sum, clamped to the
/// declared total.
pub proof fn lemma_received_is_clamped_sum(chunks: Seq<usize>, k: int, total: int)
    requires
        total >= 0,
    ensures
        spec_received_after(chunks, k, total) == if spec_chunk_sum(chunks, k) <= total {
            spec_chunk_sum(chunks, k)
        } else {
            total
        },
    decreases k,
{
    if k > 0 {
        lemma_received_is_clamped_sum(chunks, k - 1, total);
    }
}

/// The progress reports of a simulated download: one value per chunk, in
/// the order the chunks arrive.
pub fn progress_reports(chunks: &Vec<usize>, total: u64) -> (reports: Vec<u8>)
    ensures
        reports@.len() == chunks@.len(),
        forall|k: int|
            0 <= k < chunks@.len() ==> reports@[k] == spec_progress(
                spec_received_after(chunks@, k + 1, total as int),
                total as int,
            ),
{
    let mut reports: Vec<u8> = Vec::new();
    let mut received: u64 = 0;
    let mut i: usize = 0;
    while i < chunks.len()
        invariant
            i <= chunks@.len(),
            reports@.len() == i,
            received == spec_received_after(chunks@, i as int, total as int),
            forall|k: int|
                0 <= k < i ==> reports@[k] == spec_progress(
                    spec_received_after(chunks@, k + 1, total as int),
                    total as int,
                ),
        decreases chunks@.len() - i,
    {
        received = apply_chunk(received, chunks[i], total);
        reports.push(progress_percent(received, total));
        i += 1;
    }
    reports
}

/// Law: over any chunked download the reported values never decrease.
pub proof fn lemma_reports_monotonic(chunks: Seq<usize>, k1: int, k2: int, total: int)
    requires
        total >= 0,
        0 <= k1 <= k2,
    ensures
        spec_progress(spec_received_after(chunks, k1, total), total) <= spec_progress(
            spec_received_after(chunks, k2, total),
            total,
        ),
    decreases k2 - k1,
{
    lemma_received_is_clamped_sum(chunks, k1, total);
    lemma_received_is_clamped_sum(chunks, k2, total);
    lemma_chunk_sum_monotonic(chunks, 0, k1);
    lemma_chunk_sum_monotonic(chunks, k1, k2);
    lemma_progress_monotonic(
        spec_received_after(chunks, k1, total),
        spec_received_after(chunks, k2, total),
        total,
    )
}

/// The chunk sum never decreases as more chunks arrive.
pub proof fn lemma_chunk_sum_monotonic(chunks: Seq<usize>, k1: int, k2: int)
    requires
        0 <= k1 <= k2,
    ensures
        spec_chunk_sum(chunks, k1) <= spec_chunk_sum(chunks, k2),
    decreases k2 - k1,
{
    if k1 < k2 {
        lemma_chunk_sum_monotonic(chunks, k1, k2 - 1);
    }
}

/// Law: when the chunks together deliver at least the declared total and a
/// total was declared, the final report is exactly 100.
pub proof fn lemma_reports_terminate_at_100(chunks: Seq<usize>, total: int)
    requires
        total > 0,
        spec_chunk_sum(chunks, chunks.len() as int) >= total,
    ensures
        spec_progress(spec_received_after(chunks, chunks.len() as int, total), total) == 100,
{
    lemma_received_is_clamped_sum(chunks, chunks.len() as int, total);
}

} // verus!
