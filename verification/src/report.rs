//! Aggregation over per-member results and the deterministic text
//! report: totals, the method histogram, the size-bucket table, the
//! name-sorted detail section, and the exact character-level statement
//! of the whole report.
use vstd::prelude::*;
use vstd::utf8::encode_utf8;
use crate::text::append_hex32;
use crate::text::append_ratio;
use crate::text::append_u64;
use crate::text::dec_chars;
use crate::text::hex32_chars;
use crate::text::ratio_chars;
use crate::worker::EntryResult;
use crate::worker::EntryStatus;

verus! {

/// Compression ratio `(1 - compressed / stored) * 100`, kept in hundredths
/// of a percent and truncated toward zero; `0` when nothing is stored, and
/// saturating at `i64::MIN` for pathological expansion.
pub open spec fn ratio_hundredths(stored: int, compressed: int) -> int {
    if stored <= 0 {
        0
    } else if compressed <= stored {
        (stored - compressed) * 10000 / stored
    } else {
        let m = (compressed - stored) * 10000 / stored;
        if m > i64::MAX {
            i64::MIN as int
        } else {
            -m
        }
    }
}

/// Computes `ratio_hundredths` on machine integers.
pub fn compression_ratio_hundredths(stored: u64, compressed: u64) -> (r: i64)
    ensures
        r == ratio_hundredths(stored as int, compressed as int),
{
    if stored == 0 {
        0
    } else if compressed <= stored {
        let d: u128 = (stored - compressed) as u128;
        let m: u128 = d * 10000 / (stored as u128);
        proof {
            assert(m <= 10000) by (nonlinear_arith)
                requires
                    m as int == (d as int) * 10000 / (stored as int),
                    0 < stored as int,
                    d as int <= stored as int,
            ;
        }
        m as i64
    } else {
        let d: u128 = (compressed - stored) as u128;
        let m: u128 = d * 10000 / (stored as u128);
        proof {
            assert(m as int == (compressed as int - stored as int) * 10000 / (stored as int))
                by (nonlinear_arith)
                requires
                    m as int == (d as int) * 10000 / (stored as int),
                    d as int == compressed as int - stored as int,
                    0 < stored as int,
            ;
        }
        if m > i64::MAX as u128 {
            i64::MIN
        } else {
            0i64 - (m as i64)
        }
    }
}

/// Run-wide counters; every field is a plain sum over the per-member
/// results.
#[derive(Clone, Copy, Debug, PartialEq, Eq, Structural)]
pub struct Totals {
    /// Number of members processed.
    pub files: u64,
    /// Sum of claimed stored sizes.
    pub stored: u64,
    /// Sum of claimed compressed sizes.
    pub compressed: u64,
    /// Members that passed verification.
    pub passed: u64,
    /// Members skipped before decode.
    pub skipped: u64,
    /// Members that failed verification.
    pub failed: u64,
}

/// Sum of claimed stored sizes over the first `n` results.
pub open spec fn sum_stored(rs: Seq<EntryResult>, n: int) -> int
    decreases n,
{
    if n <= 0 {
        0
    } else {
        sum_stored(rs, n - 1) + rs[n - 1].stored_size
    }
}

/// Sum of claimed compressed sizes over the first `n` results.
pub open spec fn sum_comp(rs: Seq<EntryResult>, n: int) -> int
    decreases n,
{
    if n <= 0 {
        0
    } else {
        sum_comp(rs, n - 1) + rs[n - 1].compressed_size
    }
}

/// How many of the first `n` results carry the given status class.
pub open spec fn count_passed(rs: Seq<EntryResult>, n: int) -> int
    decreases n,
{
    if n <= 0 {
        0
    } else {
        count_passed(rs, n - 1) + if rs[n - 1].status is Passed {
            1int
        } else {
            0int
        }
    }
}

pub open spec fn count_skipped(rs: Seq<EntryResult>, n: int) -> int
    decreases n,
{
    if n <= 0 {
        0
    } else {
        count_skipped(rs, n - 1) + if rs[n - 1].status is Skipped {
            1int
        } else {
            0int
        }
    }
}

pub open spec fn count_failed(rs: Seq<EntryResult>, n: int) -> int
    decreases n,
{
    if n <= 0 {
        0
    } else {
        count_failed(rs, n - 1) + if rs[n - 1].status is Failed {
            1int
        } else {
            0int
        }
    }
}

/// The totals that a result list yields.
pub open spec fn totals_of(rs: Seq<EntryResult>) -> Totals {
    Totals {
        files: rs.len() as u64,
        stored: sum_stored(rs, rs.len() as int) as u64,
        compressed: sum_comp(rs, rs.len() as int) as u64,
        passed: count_passed(rs, rs.len() as int) as u64,
        skipped: count_skipped(rs, rs.len() as int) as u64,
        failed: count_failed(rs, rs.len() as int) as u64,
    }
}

proof fn lemma_sum_stored_monotonic(rs: Seq<EntryResult>, i: int, j: int)
    requires
        0 <= i <= j,
    ensures
        sum_stored(rs, i) <= sum_stored(rs, j),
    decreases j,
{
    if i < j {
        lemma_sum_stored_monotonic(rs, i, j - 1);
    }
}

proof fn lemma_sum_comp_monotonic(rs: Seq<EntryResult>, i: int, j: int)
    requires
        0 <= i <= j,
    ensures
        sum_comp(rs, i) <= sum_comp(rs, j),
    decreases j,
{
    if i < j {
        lemma_sum_comp_monotonic(rs, i, j - 1);
    }
}

proof fn lemma_count_bounds(rs: Seq<EntryResult>, n: int)
    requires
        n >= 0,
    ensures
        0 <= count_passed(rs, n) <= n,
        0 <= count_skipped(rs, n) <= n,
        0 <= count_failed(rs, n) <= n,
        count_passed(rs, n) + count_skipped(rs, n) + count_failed(rs, n) == n,
    decreases n,
{
    if n > 0 {
        lemma_count_bounds(rs, n - 1);
    }
}

/// Folds the per-member results into run totals: every counter is
/// exactly the sum over the list.
pub fn merge_results(results: &Vec<EntryResult>) -> (t: Totals)
    requires
        sum_stored(results@, results@.len() as int) <= u64::MAX,
        sum_comp(results@, results@.len() as int) <= u64::MAX,
    ensures
        t == totals_of(results@),
{
    let n = results.len();
    let mut files: u64 = 0;
    let mut stored: u64 = 0;
    let mut compressed: u64 = 0;
    let mut passed: u64 = 0;
    let mut skipped: u64 = 0;
    let mut failed: u64 = 0;
    let mut i: usize = 0;
    while i < n
        invariant
            n == results@.len(),
            0 <= i <= n,
            files == i,
            stored == sum_stored(results@, i as int),
            compressed == sum_comp(results@, i as int),
            passed == count_passed(results@, i as int),
            skipped == count_skipped(results@, i as int),
            failed == count_failed(results@, i as int),
            sum_stored(results@, n as int) <= u64::MAX,
            sum_comp(results@, n as int) <= u64::MAX,
        decreases n - i,
    {
        proof {
            lemma_sum_stored_monotonic(results@, i + 1, n as int);
            lemma_sum_comp_monotonic(results@, i + 1, n as int);
            lemma_count_bounds(results@, i as int);
        }
        let r = &results[i];
        files = files + 1;
        stored = stored + r.stored_size;
        compressed = compressed + r.compressed_size;
        match r.status {
            EntryStatus::Passed => {
                passed = passed + 1;
            },
            EntryStatus::Skipped(_) => {
                skipped = skipped + 1;
            },
            EntryStatus::Failed(_) => {
                failed = failed + 1;
            },
        }
        i = i + 1;
    }
    Totals { files, stored, compressed, passed, skipped, failed }
}

/// Inserting one method code into a histogram kept sorted by code.
pub open spec fn hist_insert(h: Seq<(u16, u64)>, m: u16) -> Seq<(u16, u64)>
    decreases h.len(),
{
    if h.len() == 0 {
        seq![(m, 1u64)]
    } else if h[0].0 == m {
        seq![(m, (h[0].1 + 1) as u64)] + h.drop_first()
    } else if m < h[0].0 {
        seq![(m, 1u64)] + h
    } else {
        seq![h[0]] + hist_insert(h.drop_first(), m)
    }
}

/// The histogram of the first `n` results' method codes.
pub open spec fn hist_of(rs: Seq<EntryResult>, n: int) -> Seq<(u16, u64)>
    decreases n,
{
    if n <= 0 {
        Seq::empty()
    } else {
        hist_insert(hist_of(rs, n - 1), rs[n - 1].method)
    }
}

/// Peeling `j` leading codes smaller than `m` off an insertion.
proof fn lemma_hist_insert_skip(h: Seq<(u16, u64)>, m: u16, j: int)
    requires
        0 <= j <= h.len(),
        forall|k: int| 0 <= k < j ==> h[k].0 < m,
    ensures
        hist_insert(h, m) == h.take(j) + hist_insert(h.skip(j), m),
    decreases j,
{
    if j == 0 {
        assert(h.take(0) + hist_insert(h.skip(0), m) =~= hist_insert(h, m)) by {
            assert(h.skip(0) =~= h);
        }
    } else {
        lemma_hist_insert_skip(h.drop_first(), m, j - 1);
        assert(h.drop_first().take(j - 1) =~= h.take(j).drop_first());
        assert(h.drop_first().skip(j - 1) =~= h.skip(j));
        assert(seq![h[0]] + (h.take(j).drop_first() + hist_insert(h.skip(j), m)) =~= h.take(j)
            + hist_insert(h.skip(j), m));
    }
}

/// Updates the sorted method histogram with one more code.
pub fn hist_bump(h: &mut Vec<(u16, u64)>, m: u16, bound: u64)
    requires
        forall|k: int| 0 <= k < old(h)@.len() ==> #[trigger] old(h)@[k].1 <= bound,
        bound < u64::MAX,
    ensures
        final(h)@ == hist_insert(old(h)@, m),
        forall|k: int| 0 <= k < final(h)@.len() ==> #[trigger] final(h)@[k].1 <= bound + 1,
{
    let ghost h0 = h@;
    let mut j: usize = 0;
    while j < h.len() && h[j].0 < m
        invariant
            h@ == h0,
            0 <= j <= h@.len(),
            forall|k: int| 0 <= k < j ==> h@[k].0 < m,
        decreases h@.len() - j,
    {
        j = j + 1;
    }
    proof {
        lemma_hist_insert_skip(h0, m, j as int);
    }
    if j < h.len() && h[j].0 == m {
        let c = h[j].1;
        h.remove(j);
        h.insert(j, (m, c + 1));
        proof {
            assert(h0.skip(j as int)[0] == (m, c));
            assert(hist_insert(h0.skip(j as int), m) =~= seq![(m, (c + 1) as u64)] + h0.skip(
                j as int,
            ).drop_first());
            assert(final(h)@ =~= h0.take(j as int) + hist_insert(h0.skip(j as int), m)) by {
                assert(h0.remove(j as int).insert(j as int, (m, (c + 1) as u64)) =~= h0.take(
                    j as int,
                ) + (seq![(m, (c + 1) as u64)] + h0.skip(j as int).drop_first()));
            }
        }
    } else {
        h.insert(j, (m, 1));
        proof {
            if j < h0.len() {
                assert(hist_insert(h0.skip(j as int), m) =~= seq![(m, 1u64)] + h0.skip(j as int));
            } else {
                assert(h0.skip(j as int) =~= Seq::<(u16, u64)>::empty());
            }
            assert(final(h)@ =~= h0.take(j as int) + hist_insert(h0.skip(j as int), m)) by {
                assert(h0.insert(j as int, (m, 1u64)) =~= h0.take(j as int) + (seq![(m, 1u64)]
                    + h0.skip(j as int)));
            }
        }
    }
}

/// Builds the method histogram of a result list, sorted by method code.
pub fn build_histogram(results: &Vec<EntryResult>) -> (h: Vec<(u16, u64)>)
    ensures
        h@ == hist_of(results@, results@.len() as int),
{
    let n = results.len();
    let mut h: Vec<(u16, u64)> = Vec::new();
    let mut i: usize = 0;
    while i < n
        invariant
            n == results@.len(),
            0 <= i <= n,
            h@ == hist_of(results@, i as int),
            forall|k: int| 0 <= k < h@.len() ==> #[trigger] h@[k].1 <= i,
        decreases n - i,
    {
        hist_bump(&mut h, results[i].method, i as u64);
        i = i + 1;
    }
    h
}

/// The six fixed size buckets of the report, counted over claimed
/// stored sizes.
#[derive(Clone, Copy, Debug, PartialEq, Eq, Structural)]
pub struct Buckets {
    /// Up to one KiB.
    pub b1k: u64,
    /// Over one KiB, up to ten KiB.
    pub b10k: u64,
    /// Over ten KiB, up to one hundred KiB.
    pub b100k: u64,
    /// Over one hundred KiB, up to one MiB.
    pub b1m: u64,
    /// Over one MiB, up to ten MiB.
    pub b10m: u64,
    /// Over ten MiB.
    pub huge: u64,
}

/// Which bucket a stored size falls in.
pub open spec fn bucket_of(size: int) -> int {
    if size <= 1024 {
        0
    } else if size <= 10240 {
        1
    } else if size <= 102400 {
        2
    } else if size <= 1048576 {
        3
    } else if size <= 10485760 {
        4
    } else {
        5
    }
}

/// How many of the first `n` results fall in bucket `b`.
pub open spec fn bucket_count(rs: Seq<EntryResult>, n: int, b: int) -> int
    decreases n,
{
    if n <= 0 {
        0
    } else {
        bucket_count(rs, n - 1, b) + if bucket_of(rs[n - 1].stored_size as int) == b {
            1int
        } else {
            0int
        }
    }
}

proof fn lemma_bucket_count_bound(rs: Seq<EntryResult>, n: int, b: int)
    requires
        n >= 0,
    ensures
        0 <= bucket_count(rs, n, b) <= n,
    decreases n,
{
    if n > 0 {
        lemma_bucket_count_bound(rs, n - 1, b);
    }
}

/// The bucket table of a result list.
pub open spec fn buckets_of(rs: Seq<EntryResult>) -> Buckets {
    Buckets {
        b1k: bucket_count(rs, rs.len() as int, 0) as u64,
        b10k: bucket_count(rs, rs.len() as int, 1) as u64,
        b100k: bucket_count(rs, rs.len() as int, 2) as u64,
        b1m: bucket_count(rs, rs.len() as int, 3) as u64,
        b10m: bucket_count(rs, rs.len() as int, 4) as u64,
        huge: bucket_count(rs, rs.len() as int, 5) as u64,
    }
}

/// Counts the results into the six fixed size buckets.
pub fn build_buckets(results: &Vec<EntryResult>) -> (b: Buckets)
    ensures
        b == buckets_of(results@),
{
    let n = results.len();
    let mut b = Buckets { b1k: 0, b10k: 0, b100k: 0, b1m: 0, b10m: 0, huge: 0 };
    let mut i: usize = 0;
    while i < n
        invariant
            n == results@.len(),
            0 <= i <= n,
            b.b1k == bucket_count(results@, i as int, 0),
            b.b10k == bucket_count(results@, i as int, 1),
            b.b100k == bucket_count(results@, i as int, 2),
            b.b1m == bucket_count(results@, i as int, 3),
            b.b10m == bucket_count(results@, i as int, 4),
            b.huge == bucket_count(results@, i as int, 5),
        decreases n - i,
    {
        proof {
            lemma_bucket_count_bound(results@, i as int, 0);
            lemma_bucket_count_bound(results@, i as int, 1);
            lemma_bucket_count_bound(results@, i as int, 2);
            lemma_bucket_count_bound(results@, i as int, 3);
            lemma_bucket_count_bound(results@, i as int, 4);
            lemma_bucket_count_bound(results@, i as int, 5);
        }
        let size = results[i].stored_size;
        if size <= 1024 {
            b.b1k = b.b1k + 1;
        } else if size <= 10240 {
            b.b10k = b.b10k + 1;
        } else if size <= 102400 {
            b.b100k = b.b100k + 1;
        } else if size <= 1048576 {
            b.b1m = b.b1m + 1;
        } else if size <= 10485760 {
            b.b10m = b.b10m + 1;
        } else {
            b.huge = b.huge + 1;
        }
        i = i + 1;
    }
    b
}

/// Byte-wise lexicographic order from position `i` on.
pub open spec fn bytes_le_from(a: Seq<u8>, b: Seq<u8>, i: int) -> bool
    decreases a.len() - i,
{
    if i < 0 || i >= a.len() {
        true
    } else if i >= b.len() {
        false
    } else if a[i] < b[i] {
        true
    } else if a[i] > b[i] {
        false
    } else {
        bytes_le_from(a, b, i + 1)
    }
}

/// Byte-wise lexicographic order; total, and the order the report's
/// detail section is sorted by.
pub open spec fn bytes_le(a: Seq<u8>, b: Seq<u8>) -> bool {
    bytes_le_from(a, b, 0)
}

/// The key a result is sorted under: the UTF-8 bytes of its decoded
/// name, whose byte order coincides with code-point order.
pub open spec fn name_key(r: EntryResult) -> Seq<u8> {
    encode_utf8(r.name@)
}

/// Compares two byte strings.
pub fn bytes_le_exec(a: &[u8], b: &[u8]) -> (r: bool)
    ensures
        r == bytes_le(a@, b@),
{
    let mut i: usize = 0;
    loop
        invariant
            0 <= i <= a@.len(),
            i <= b@.len(),
            bytes_le(a@, b@) == bytes_le_from(a@, b@, i as int),
        decreases a@.len() - i,
    {
        if i >= a.len() {
            return true;
        }
        if i >= b.len() {
            return false;
        }
        if a[i] < b[i] {
            return true;
        }
        if a[i] > b[i] {
            return false;
        }
        i = i + 1;
    }
}

/// Inserting one result into a list kept sorted by raw name; equal
/// names keep their arrival order.
pub open spec fn sorted_insert(s: Seq<EntryResult>, e: EntryResult) -> Seq<EntryResult>
    decreases s.len(),
{
    if s.len() == 0 {
        seq![e]
    } else if bytes_le(name_key(s[0]), name_key(e)) {
        seq![s[0]] + sorted_insert(s.drop_first(), e)
    } else {
        seq![e] + s
    }
}

/// The first `n` results, sorted by raw name.
pub open spec fn sort_by_name(rs: Seq<EntryResult>, n: int) -> Seq<EntryResult>
    decreases n,
{
    if n <= 0 {
        Seq::empty()
    } else {
        sorted_insert(sort_by_name(rs, n - 1), rs[n - 1])
    }
}

/// Peeling `j` leading names that stay in front off an insertion.
proof fn lemma_sorted_insert_skip(s: Seq<EntryResult>, e: EntryResult, j: int)
    requires
        0 <= j <= s.len(),
        forall|k: int| 0 <= k < j ==> bytes_le(name_key(#[trigger] s[k]), name_key(e)),
    ensures
        sorted_insert(s, e) == s.take(j) + sorted_insert(s.skip(j), e),
    decreases j,
{
    if j == 0 {
        assert(s.take(0) + sorted_insert(s.skip(0), e) =~= sorted_insert(s, e)) by {
            assert(s.skip(0) =~= s);
        }
    } else {
        lemma_sorted_insert_skip(s.drop_first(), e, j - 1);
        assert(s.drop_first().take(j - 1) =~= s.take(j).drop_first());
        assert(s.drop_first().skip(j - 1) =~= s.skip(j));
        assert(seq![s[0]] + (s.take(j).drop_first() + sorted_insert(s.skip(j), e)) =~= s.take(j)
            + sorted_insert(s.skip(j), e));
    }
}

/// Finds where a name belongs in a list kept sorted by raw name: after
/// every name that stays in front of it.
fn find_insert_pos(out: &Vec<EntryResult>, key: &[u8]) -> (j: usize)
    ensures
        0 <= j <= out@.len(),
        forall|k: int| 0 <= k < j ==> bytes_le(name_key(#[trigger] out@[k]), key@),
        j < out@.len() ==> !bytes_le(name_key(out@[j as int]), key@),
{
    let mut j: usize = 0;
    while j < out.len()
        invariant
            0 <= j <= out@.len(),
            forall|k: int| 0 <= k < j ==> bytes_le(name_key(#[trigger] out@[k]), key@),
        decreases out@.len() - j,
    {
        if !bytes_le_exec(out[j].name.as_str().as_bytes(), key) {
            return j;
        }
        j = j + 1;
    }
    j
}

/// Sorts the results by decoded member name, the order in which the
/// detail section reports them.
pub fn sort_results(results: Vec<EntryResult>) -> (out: Vec<EntryResult>)
    ensures
        out@ == sort_by_name(results@, results@.len() as int),
        out@.len() == results@.len(),
{
    let ghost orig = results@;
    let mut rest = results;
    let mut out: Vec<EntryResult> = Vec::new();
    while rest.len() > 0
        invariant
            out@.len() + rest@.len() == orig.len(),
            out@ == sort_by_name(orig, out@.len() as int),
            rest@ == orig.skip(out@.len() as int),
        decreases rest@.len(),
    {
        let ghost i = out@.len() as int;
        let e = rest.remove(0);
        proof {
            assert(orig.skip(i)[0] == orig[i]);
            assert(orig.skip(i).remove(0) =~= orig.skip(i + 1));
        }
        let ghost s0 = out@;
        let j = find_insert_pos(&out, e.name.as_str().as_bytes());
        proof {
            lemma_sorted_insert_skip(s0, e, j as int);
        }
        out.insert(j, e);
        proof {
            if j < s0.len() {
                assert(sorted_insert(s0.skip(j as int), e) =~= seq![e] + s0.skip(j as int));
            } else {
                assert(s0.skip(j as int) =~= Seq::<EntryResult>::empty());
            }
            assert(out@ =~= s0.take(j as int) + sorted_insert(s0.skip(j as int), e)) by {
                assert(s0.insert(j as int, e) =~= s0.take(j as int) + (seq![e] + s0.skip(
                    j as int,
                )));
            }
            assert(out@ =~= sort_by_name(orig, i + 1));
        }
    }
    proof {
        assert(out@.len() == orig.len());
    }
    out
}

} // verus!

use vstd::prelude::*;

verus! {

/// The word the detail section prints for a verdict.
pub open spec fn status_chars(st: EntryStatus) -> Seq<char> {
    match st {
        EntryStatus::Passed => "Ok"@,
        EntryStatus::Skipped(_) => "Skipped"@,
        EntryStatus::Failed(_) => "Failed"@,
    }
}

/// The report's header block.
pub open spec fn header_chars(duration_ms: u64, path: Seq<char>, files: u64) -> Seq<char> {
    "ZIP Analysis Report\n"@ + "Duration (ms): "@ + dec_chars(duration_ms as int) + "\n"@
        + "Archive: "@ + path + "\n"@ + "Entries: "@ + dec_chars(files as int) + "\n"@
}

/// The report's summary block.
pub open spec fn summary_chars(stored: u64, compressed: u64) -> Seq<char> {
    "Total stored bytes: "@ + dec_chars(stored as int) + "\n"@ + "Total compressed bytes: "@
        + dec_chars(compressed as int) + "\n"@ + "Compression ratio: "@ + ratio_chars(
        ratio_hundredths(stored as int, compressed as int),
    ) + "%\n"@
}

/// One histogram line: method code, then its count.
pub open spec fn hist_line(h: Seq<(u16, u64)>, i: int) -> Seq<char> {
    dec_chars(h[i].0 as int) + ": "@ + dec_chars(h[i].1 as int) + "\n"@
}

/// The histogram lines from `i` on.
pub open spec fn hist_lines(h: Seq<(u16, u64)>, i: int) -> Seq<char>
    decreases h.len() - i,
{
    if i < 0 || i >= h.len() {
        Seq::empty()
    } else {
        hist_line(h, i) + hist_lines(h, i + 1)
    }
}

/// The report's method-histogram block, ordered by method code.
pub open spec fn methods_chars(h: Seq<(u16, u64)>) -> Seq<char> {
    "Methods:\n"@ + hist_lines(h, 0)
}

/// The report's six-row size-bucket block, in fixed order.
pub open spec fn buckets_chars(b: Buckets) -> Seq<char> {
    "Size buckets:\n"@ + "<=1KiB: "@ + dec_chars(b.b1k as int) + "\n"@ + "<=10KiB: "@ + dec_chars(
        b.b10k as int,
    ) + "\n"@ + "<=100KiB: "@ + dec_chars(b.b100k as int) + "\n"@ + "<=1MiB: "@ + dec_chars(
        b.b1m as int,
    ) + "\n"@ + "<=10MiB: "@ + dec_chars(b.b10m as int) + "\n"@ + ">10MiB: "@ + dec_chars(
        b.huge as int,
    ) + "\n"@
}

/// One detail line: name, sizes, method, claimed CRC-32, verdict,
/// tab-separated.
pub open spec fn entry_line(r: EntryResult) -> Seq<char> {
    r.name@ + "\t"@ + dec_chars(r.stored_size as int) + "\t"@ + dec_chars(r.compressed_size as int)
        + "\t"@ + dec_chars(r.method as int) + "\t"@ + hex32_chars(r.crc_claimed as int) + "\t"@
        + status_chars(r.status) + "\n"@
}

/// The detail lines from `i` on.
pub open spec fn entry_lines(rs: Seq<EntryResult>, i: int) -> Seq<char>
    decreases rs.len() - i,
{
    if i < 0 || i >= rs.len() {
        Seq::empty()
    } else {
        entry_line(rs[i]) + entry_lines(rs, i + 1)
    }
}

/// The report's optional per-member block.
pub open spec fn details_chars(rs: Seq<EntryResult>, detailed: bool) -> Seq<char> {
    if detailed {
        "Entries:\n"@ + entry_lines(rs, 0)
    } else {
        Seq::empty()
    }
}

/// The whole report, character for character: a function of the sorted
/// results, the histogram, the buckets, the totals and the options
/// alone, which is what makes the report reproducible.
pub open spec fn report_chars(
    rs: Seq<EntryResult>,
    h: Seq<(u16, u64)>,
    b: Buckets,
    t: Totals,
    duration_ms: u64,
    path: Seq<char>,
    detailed: bool,
) -> Seq<char> {
    header_chars(duration_ms, path, t.files) + summary_chars(t.stored, t.compressed)
        + methods_chars(h) + buckets_chars(b) + details_chars(rs, detailed)
}

/// Two runs over the same results and options print byte-identical
/// reports: the text is a function of its inputs and nothing else.
pub proof fn lemma_report_deterministic(
    rs1: Seq<EntryResult>,
    h1: Seq<(u16, u64)>,
    b1: Buckets,
    t1: Totals,
    d1: u64,
    p1: Seq<char>,
    det1: bool,
    rs2: Seq<EntryResult>,
    h2: Seq<(u16, u64)>,
    b2: Buckets,
    t2: Totals,
    d2: u64,
    p2: Seq<char>,
    det2: bool,
)
    requires
        rs1 == rs2,
        h1 == h2,
        b1 == b2,
        t1 == t2,
        d1 == d2,
        p1 == p2,
        det1 == det2,
    ensures
        report_chars(rs1, h1, b1, t1, d1, p1, det1) == report_chars(rs2, h2, b2, t2, d2, p2, det2),
{
}

/// Appends the header block.
fn append_header(s: &mut String, duration_ms: u64, path: &str, files: u64)
    ensures
        final(s)@ == old(s)@ + header_chars(duration_ms, path@, files),
{
    s.append("ZIP Analysis Report\n");
    s.append("Duration (ms): ");
    append_u64(s, duration_ms);
    s.append("\n");
    s.append("Archive: ");
    s.append(path);
    s.append("\n");
    s.append("Entries: ");
    append_u64(s, files);
    s.append("\n");
    proof {
        assert(s@ =~= old(s)@ + header_chars(duration_ms, path@, files));
    }
}

/// Appends the summary block.
fn append_summary(s: &mut String, stored: u64, compressed: u64)
    ensures
        final(s)@ == old(s)@ + summary_chars(stored, compressed),
{
    s.append("Total stored bytes: ");
    append_u64(s, stored);
    s.append("\n");
    s.append("Total compressed bytes: ");
    append_u64(s, compressed);
    s.append("\n");
    s.append("Compression ratio: ");
    let ratio = compression_ratio_hundredths(stored, compressed);
    append_ratio(s, ratio);
    s.append("%\n");
    proof {
        assert(s@ =~= old(s)@ + summary_chars(stored, compressed));
    }
}

/// Appends the method-histogram block.
fn append_methods(s: &mut String, h: &Vec<(u16, u64)>)
    ensures
        final(s)@ == old(s)@ + methods_chars(h@),
{
    s.append("Methods:\n");
    let mut i: usize = 0;
    while i < h.len()
        invariant
            0 <= i <= h@.len(),
            s@ + hist_lines(h@, i as int) == old(s)@ + methods_chars(h@),
        decreases h@.len() - i,
    {
        let ghost before = s@;
        let m = h[i].0;
        let c = h[i].1;
        append_u64(s, m as u64);
        s.append(": ");
        append_u64(s, c);
        s.append("\n");
        proof {
            assert(s@ =~= before + hist_line(h@, i as int));
            assert(s@ + hist_lines(h@, i + 1) =~= before + hist_lines(h@, i as int));
        }
        i = i + 1;
    }
    proof {
        assert(hist_lines(h@, h@.len() as int) =~= Seq::<char>::empty());
        assert(s@ + Seq::<char>::empty() =~= s@);
    }
}

/// Appends the size-bucket block.
fn append_buckets(s: &mut String, b: &Buckets)
    ensures
        final(s)@ == old(s)@ + buckets_chars(*b),
{
    s.append("Size buckets:\n");
    s.append("<=1KiB: ");
    append_u64(s, b.b1k);
    s.append("\n");
    s.append("<=10KiB: ");
    append_u64(s, b.b10k);
    s.append("\n");
    s.append("<=100KiB: ");
    append_u64(s, b.b100k);
    s.append("\n");
    s.append("<=1MiB: ");
    append_u64(s, b.b1m);
    s.append("\n");
    s.append("<=10MiB: ");
    append_u64(s, b.b10m);
    s.append("\n");
    s.append(">10MiB: ");
    append_u64(s, b.huge);
    s.append("\n");
    proof {
        assert(s@ =~= old(s)@ + buckets_chars(*b));
    }
}

/// Appends the optional per-member block.
fn append_details(s: &mut String, rs: &Vec<EntryResult>, detailed: bool)
    ensures
        final(s)@ == old(s)@ + details_chars(rs@, detailed),
{
    if !detailed {
        proof {
            assert(s@ + details_chars(rs@, false) =~= s@);
        }
        return ;
    }
    s.append("Entries:\n");
    let mut i: usize = 0;
    while i < rs.len()
        invariant
            0 <= i <= rs@.len(),
            s@ + entry_lines(rs@, i as int) == old(s)@ + details_chars(rs@, true),
        decreases rs@.len() - i,
    {
        let ghost before = s@;
        let r = &rs[i];
        s.append(r.name.as_str());
        s.append("\t");
        append_u64(s, r.stored_size);
        s.append("\t");
        append_u64(s, r.compressed_size);
        s.append("\t");
        append_u64(s, r.method as u64);
        s.append("\t");
        append_hex32(s, r.crc_claimed);
        s.append("\t");
        match r.status {
            EntryStatus::Passed => s.append("Ok"),
            EntryStatus::Skipped(_) => s.append("Skipped"),
            EntryStatus::Failed(_) => s.append("Failed"),
        }
        s.append("\n");
        proof {
            assert(s@ =~= before + entry_line(rs@[i as int]));
            assert(s@ + entry_lines(rs@, i + 1) =~= before + entry_lines(rs@, i as int));
        }
        i = i + 1;
    }
    proof {
        assert(entry_lines(rs@, rs@.len() as int) =~= Seq::<char>::empty());
        assert(s@ + Seq::<char>::empty() =~= s@);
    }
}

/// Renders the deterministic text report: header, summary, method
/// histogram, size buckets, and, when asked for, one line per member in
/// name order. The result is pinned character by character.
pub fn render_report(
    results: &Vec<EntryResult>,
    hist: &Vec<(u16, u64)>,
    buckets: &Buckets,
    totals: &Totals,
    duration_ms: u64,
    path: &str,
    detailed: bool,
) -> (r: String)
    ensures
        r@ == report_chars(results@, hist@, *buckets, *totals, duration_ms, path@, detailed),
{
    let mut s = String::new();
    append_header(&mut s, duration_ms, path, totals.files);
    append_summary(&mut s, totals.stored, totals.compressed);
    append_methods(&mut s, hist);
    append_buckets(&mut s, buckets);
    append_details(&mut s, results, detailed);
    proof {
        assert(s@ =~= report_chars(
            results@,
            hist@,
            *buckets,
            *totals,
            duration_ms,
            path@,
            detailed,
        ));
    }
    s
}

} // verus!

verus! {

/// How many of the first `n` results carry method `m`.
pub open spec fn method_count(rs: Seq<EntryResult>, n: int, m: u16) -> int
    decreases n,
{
    if n <= 0 {
        0
    } else {
        method_count(rs, n - 1, m) + if rs[n - 1].method == m {
            1int
        } else {
            0int
        }
    }
}

/// The count a histogram records for method `m`; zero where the method
/// has no row.
pub open spec fn hist_lookup(h: Seq<(u16, u64)>, m: u16) -> int
    decreases h.len(),
{
    if h.len() == 0 {
        0
    } else if h[0].0 == m {
        h[0].1 as int
    } else {
        hist_lookup(h.drop_first(), m)
    }
}

/// Histogram keys are kept in strictly increasing order.
pub open spec fn hist_sorted(h: Seq<(u16, u64)>) -> bool {
    forall|i: int, j: int| 0 <= i < j < h.len() ==> (#[trigger] h[i]).0 < (#[trigger] h[j]).0
}

/// A method below every key has no row.
proof fn lemma_lookup_below(h: Seq<(u16, u64)>, m: u16)
    requires
        forall|k: int| 0 <= k < h.len() ==> m < (#[trigger] h[k]).0,
    ensures
        hist_lookup(h, m) == 0,
    decreases h.len(),
{
    if h.len() > 0 {
        assert(forall|k: int|
            0 <= k < h.drop_first().len() ==> m < (#[trigger] h.drop_first()[k]).0);
        lemma_lookup_below(h.drop_first(), m);
    }
}

/// Insertion never brings a key at or below the given floor, provided
/// neither the list nor the new method does.
proof fn lemma_hist_insert_floor(h: Seq<(u16, u64)>, m: u16, lo: u16)
    requires
        forall|k: int| 0 <= k < h.len() ==> lo < (#[trigger] h[k]).0,
        lo < m,
    ensures
        forall|k: int|
            0 <= k < hist_insert(h, m).len() ==> lo < (#[trigger] hist_insert(h, m)[k]).0,
    decreases h.len(),
{
    if h.len() == 0 {
    } else if h[0].0 == m {
        let out = seq![(m, (h[0].1 + 1) as u64)] + h.drop_first();
        assert forall|k: int| 0 <= k < out.len() implies lo < (#[trigger] out[k]).0 by {
            if k > 0 {
                assert(out[k] == h[k]);
            }
        }
    } else if m < h[0].0 {
    } else {
        assert(forall|k: int|
            0 <= k < h.drop_first().len() ==> lo < (#[trigger] h.drop_first()[k]).0);
        lemma_hist_insert_floor(h.drop_first(), m, lo);
        let out = seq![h[0]] + hist_insert(h.drop_first(), m);
        assert forall|k: int| 0 <= k < out.len() implies lo < (#[trigger] out[k]).0 by {
            if k > 0 {
                assert(out[k] == hist_insert(h.drop_first(), m)[k - 1]);
            }
        }
    }
}

/// Insertion keeps the keys strictly increasing.
proof fn lemma_hist_insert_sorted(h: Seq<(u16, u64)>, m: u16)
    requires
        hist_sorted(h),
    ensures
        hist_sorted(hist_insert(h, m)),
    decreases h.len(),
{
    if h.len() == 0 {
    } else if h[0].0 == m {
        let out = seq![(m, (h[0].1 + 1) as u64)] + h.drop_first();
        assert forall|i: int, j: int|
            0 <= i < j < out.len() implies (#[trigger] out[i]).0 < (#[trigger] out[j]).0 by {
            assert(out[j] == h[j]);
            if i > 0 {
                assert(out[i] == h[i]);
            }
        }
    } else if m < h[0].0 {
        let out = seq![(m, 1u64)] + h;
        assert forall|i: int, j: int|
            0 <= i < j < out.len() implies (#[trigger] out[i]).0 < (#[trigger] out[j]).0 by {
            assert(out[j] == h[j - 1]);
            if i > 0 {
                assert(out[i] == h[i - 1]);
            }
        }
    } else {
        assert(hist_sorted(h.drop_first()));
        lemma_hist_insert_sorted(h.drop_first(), m);
        assert(forall|k: int|
            0 <= k < h.drop_first().len() ==> h[0].0 < (#[trigger] h.drop_first()[k]).0);
        lemma_hist_insert_floor(h.drop_first(), m, h[0].0);
        let out = seq![h[0]] + hist_insert(h.drop_first(), m);
        assert forall|i: int, j: int|
            0 <= i < j < out.len() implies (#[trigger] out[i]).0 < (#[trigger] out[j]).0 by {
            assert(out[j] == hist_insert(h.drop_first(), m)[j - 1]);
            if i > 0 {
                assert(out[i] == hist_insert(h.drop_first(), m)[i - 1]);
            }
        }
    }
}

/// The histogram of any result prefix has strictly increasing keys.
pub proof fn lemma_hist_of_sorted(rs: Seq<EntryResult>, n: int)
    ensures
        hist_sorted(hist_of(rs, n)),
    decreases (if n > 0 {
        n
    } else {
        0
    }),
{
    if n > 0 {
        lemma_hist_of_sorted(rs, n - 1);
        lemma_hist_insert_sorted(hist_of(rs, n - 1), rs[n - 1].method);
    }
}

/// Histogram keys are unique, so looking one up after an insertion
/// sees exactly the one bump.
proof fn lemma_hist_insert_lookup(h: Seq<(u16, u64)>, m: u16, m2: u16)
    requires
        hist_sorted(h),
        forall|k: int| 0 <= k < h.len() ==> (#[trigger] h[k]).1 < u64::MAX,
    ensures
        hist_lookup(hist_insert(h, m), m2) == hist_lookup(h, m2) + if m == m2 {
            1int
        } else {
            0int
        },
    decreases h.len(),
{
    if h.len() == 0 {
        assert(hist_insert(h, m) == seq![(m, 1u64)]);
        if m != m2 {
            assert(hist_lookup(Seq::<(u16, u64)>::empty(), m2) == 0);
            assert(seq![(m, 1u64)].drop_first() =~= Seq::<(u16, u64)>::empty());
            assert(hist_lookup(seq![(m, 1u64)], m2) == 0);
        } else {
            assert(hist_lookup(seq![(m, 1u64)], m2) == 1);
        }
    } else if h[0].0 == m {
        let out = seq![(m, (h[0].1 + 1) as u64)] + h.drop_first();
        assert(out.drop_first() =~= h.drop_first());
        assert(h[0].1 < u64::MAX);
        assert(hist_insert(h, m) == out);
        assert(hist_lookup(out, m2) == hist_lookup(h, m2) + if m == m2 {
            1int
        } else {
            0int
        });
    } else if m < h[0].0 {
        let out = seq![(m, 1u64)] + h;
        assert(out.drop_first() =~= h);
        assert(hist_insert(h, m) == out);
        if m == m2 {
            // The new key sits below every existing one, so it had no
            // row before.
            assert(forall|k: int| 0 <= k < h.len() ==> m < (#[trigger] h[k]).0) by {
                assert forall|k: int| 0 <= k < h.len() implies m < (#[trigger] h[k]).0 by {
                    if k > 0 {
                        assert(h[0].0 < h[k].0);
                    }
                }
            }
            lemma_lookup_below(h, m);
        }
    } else {
        assert(hist_sorted(h.drop_first()));
        assert(forall|k: int|
            0 <= k < h.drop_first().len() ==> (#[trigger] h.drop_first()[k]).1 < u64::MAX);
        lemma_hist_insert_lookup(h.drop_first(), m, m2);
        let out = seq![h[0]] + hist_insert(h.drop_first(), m);
        assert(out.drop_first() =~= hist_insert(h.drop_first(), m));
        assert(hist_insert(h, m) == out);
        assert(hist_lookup(out, m2) == hist_lookup(h, m2) + if m == m2 {
            1int
        } else {
            0int
        });
    }
}

/// Every count in the histogram of `n` results stays below `n + 1`.
proof fn lemma_hist_of_bounded(rs: Seq<EntryResult>, n: int)
    requires
        0 <= n < u64::MAX,
    ensures
        forall|k: int| 0 <= k < hist_of(rs, n).len() ==> (#[trigger] hist_of(rs, n)[k]).1 <= n,
    decreases n,
{
    if n > 0 {
        lemma_hist_of_bounded(rs, n - 1);
        lemma_hist_insert_bounded(hist_of(rs, n - 1), rs[n - 1].method, (n - 1) as nat);
    }
}

/// Insertion raises no count by more than one.
proof fn lemma_hist_insert_bounded(h: Seq<(u16, u64)>, m: u16, bound: nat)
    requires
        forall|k: int| 0 <= k < h.len() ==> (#[trigger] h[k]).1 <= bound,
        bound < u64::MAX,
    ensures
        forall|k: int|
            0 <= k < hist_insert(h, m).len() ==> (#[trigger] hist_insert(h, m)[k]).1 <= bound + 1,
    decreases h.len(),
{
    if h.len() == 0 {
    } else if h[0].0 == m {
    } else if m < h[0].0 {
    } else {
        assert(forall|k: int|
            0 <= k < h.drop_first().len() ==> (#[trigger] h.drop_first()[k]).1 <= bound);
        lemma_hist_insert_bounded(h.drop_first(), m, bound);
        let out = seq![h[0]] + hist_insert(h.drop_first(), m);
        assert forall|k: int| 0 <= k < out.len() implies (#[trigger] out[k]).1 <= bound + 1 by {
            if k > 0 {
                assert(out[k] == hist_insert(h.drop_first(), m)[k - 1]);
            }
        }
    }
}

/// The histogram is exact: the count it records for any method code
/// equals the number of results that carry that code.
pub proof fn lemma_histogram_exact(rs: Seq<EntryResult>, n: int, m: u16)
    requires
        0 <= n <= 65535,
    ensures
        hist_lookup(hist_of(rs, n), m) == method_count(rs, n, m),
    decreases n,
{
    if n > 0 {
        lemma_histogram_exact(rs, n - 1, m);
        lemma_hist_of_sorted(rs, n - 1);
        lemma_hist_of_bounded(rs, n - 1);
        assert(forall|k: int|
            0 <= k < hist_of(rs, n - 1).len() ==> (#[trigger] hist_of(rs, n - 1)[k]).1
                < u64::MAX);
        lemma_hist_insert_lookup(hist_of(rs, n - 1), rs[n - 1].method, m);
    }
}

/// The order the detail section uses never disagrees both ways: of two
/// names, at least one stays in front of the other.
pub proof fn lemma_bytes_le_total(a: Seq<u8>, b: Seq<u8>)
    ensures
        bytes_le(a, b) || bytes_le(b, a),
{
    lemma_bytes_le_from_total(a, b, 0);
}

proof fn lemma_bytes_le_from_total(a: Seq<u8>, b: Seq<u8>, i: int)
    requires
        0 <= i,
    ensures
        bytes_le_from(a, b, i) || bytes_le_from(b, a, i),
    decreases (if a.len() - i > 0 {
        a.len() - i
    } else {
        0
    }),
{
    if i < a.len() && i < b.len() && a[i] == b[i] {
        lemma_bytes_le_from_total(a, b, i + 1);
    }
}

} // verus!

verus! {

/// The byte totals read nothing but the claimed sizes: two result
/// lists that agree on every member's claimed sizes have the same
/// stored and compressed sums, whatever the members' verdicts. A
/// member that failed its checksum is counted exactly like one that
/// passed.
pub proof fn lemma_totals_ignore_status(rs1: Seq<EntryResult>, rs2: Seq<EntryResult>, n: int)
    requires
        0 <= n <= rs1.len(),
        n <= rs2.len(),
        forall|k: int|
            0 <= k < n ==> ((#[trigger] rs1[k]).stored_size == rs2[k].stored_size && (
            #[trigger] rs2[k]).compressed_size == rs1[k].compressed_size),
    ensures
        sum_stored(rs1, n) == sum_stored(rs2, n),
        sum_comp(rs1, n) == sum_comp(rs2, n),
    decreases n,
{
    if n > 0 {
        lemma_totals_ignore_status(rs1, rs2, n - 1);
    }
}

/// The order the detail section uses is transitive.
pub proof fn lemma_bytes_le_trans(a: Seq<u8>, b: Seq<u8>, c: Seq<u8>)
    requires
        bytes_le(a, b),
        bytes_le(b, c),
    ensures
        bytes_le(a, c),
{
    lemma_bytes_le_from_trans(a, b, c, 0);
}

proof fn lemma_bytes_le_from_trans(a: Seq<u8>, b: Seq<u8>, c: Seq<u8>, i: int)
    requires
        0 <= i,
        bytes_le_from(a, b, i),
        bytes_le_from(b, c, i),
    ensures
        bytes_le_from(a, c, i),
    decreases (if a.len() - i > 0 {
        a.len() - i
    } else {
        0
    }),
{
    if i < a.len() && i < b.len() && i < c.len() && a[i] == b[i] && b[i] == c[i] {
        lemma_bytes_le_from_trans(a, b, c, i + 1);
    }
}

/// A name-sorted result list: every earlier name stays in front of
/// every later one.
pub open spec fn results_sorted(rs: Seq<EntryResult>) -> bool {
    forall|i: int, j: int|
        0 <= i < j < rs.len() ==> bytes_le(
            name_key(#[trigger] rs[i]),
            name_key(#[trigger] rs[j]),
        )
}

/// Insertion never brings a name in front of the given floor, provided
/// neither the list nor the new result does.
proof fn lemma_sorted_insert_floor(s: Seq<EntryResult>, e: EntryResult, lo: Seq<u8>)
    requires
        forall|k: int| 0 <= k < s.len() ==> bytes_le(lo, name_key(#[trigger] s[k])),
        bytes_le(lo, name_key(e)),
    ensures
        forall|k: int|
            0 <= k < sorted_insert(s, e).len() ==> bytes_le(
                lo,
                name_key(#[trigger] sorted_insert(s, e)[k]),
            ),
    decreases s.len(),
{
    if s.len() == 0 {
    } else if bytes_le(name_key(s[0]), name_key(e)) {
        assert(forall|k: int|
            0 <= k < s.drop_first().len() ==> bytes_le(
                lo,
                name_key(#[trigger] s.drop_first()[k]),
            ));
        lemma_sorted_insert_floor(s.drop_first(), e, lo);
        let out = seq![s[0]] + sorted_insert(s.drop_first(), e);
        assert forall|k: int|
            0 <= k < out.len() implies bytes_le(lo, name_key(#[trigger] out[k])) by {
            if k > 0 {
                assert(out[k] == sorted_insert(s.drop_first(), e)[k - 1]);
            }
        }
    } else {
        let out = seq![e] + s;
        assert forall|k: int|
            0 <= k < out.len() implies bytes_le(lo, name_key(#[trigger] out[k])) by {
            if k > 0 {
                assert(out[k] == s[k - 1]);
            }
        }
    }
}

/// Inserting into a sorted list keeps it sorted.
proof fn lemma_sorted_insert_sorted(s: Seq<EntryResult>, e: EntryResult)
    requires
        results_sorted(s),
    ensures
        results_sorted(sorted_insert(s, e)),
    decreases s.len(),
{
    if s.len() == 0 {
    } else if bytes_le(name_key(s[0]), name_key(e)) {
        assert(results_sorted(s.drop_first()));
        lemma_sorted_insert_sorted(s.drop_first(), e);
        assert(forall|k: int|
            0 <= k < s.drop_first().len() ==> bytes_le(
                name_key(s[0]),
                name_key(#[trigger] s.drop_first()[k]),
            ));
        lemma_sorted_insert_floor(s.drop_first(), e, name_key(s[0]));
        let out = seq![s[0]] + sorted_insert(s.drop_first(), e);
        assert forall|i: int, j: int|
            0 <= i < j < out.len() implies bytes_le(
            name_key(#[trigger] out[i]),
            name_key(#[trigger] out[j]),
        ) by {
            assert(out[j] == sorted_insert(s.drop_first(), e)[j - 1]);
            if i > 0 {
                assert(out[i] == sorted_insert(s.drop_first(), e)[i - 1]);
            }
        }
    } else {
        lemma_bytes_le_total(name_key(s[0]), name_key(e));
        let out = seq![e] + s;
        assert forall|i: int, j: int|
            0 <= i < j < out.len() implies bytes_le(
            name_key(#[trigger] out[i]),
            name_key(#[trigger] out[j]),
        ) by {
            assert(out[j] == s[j - 1]);
            if i == 0 {
                if j > 1 {
                    lemma_bytes_le_trans(name_key(e), name_key(s[0]), name_key(s[j - 1]));
                }
            } else {
                assert(out[i] == s[i - 1]);
            }
        }
    }
}

/// The detail section's order really is sorted: the sort yields a list
/// in which every earlier name stays in front of every later one.
pub proof fn lemma_sort_results_sorted(rs: Seq<EntryResult>, n: int)
    requires
        0 <= n <= rs.len(),
    ensures
        results_sorted(sort_by_name(rs, n)),
    decreases n,
{
    if n > 0 {
        lemma_sort_results_sorted(rs, n - 1);
        lemma_sorted_insert_sorted(sort_by_name(rs, n - 1), rs[n - 1]);
    }
}

/// The sort only rearranges: the sorted list carries exactly the
/// original results.
pub proof fn lemma_sort_results_permutes(rs: Seq<EntryResult>, n: int)
    requires
        0 <= n <= rs.len(),
    ensures
        sort_by_name(rs, n).to_multiset() == rs.take(n).to_multiset(),
    decreases n,
{
    broadcast use vstd::seq_lib::group_to_multiset_ensures;

    if n == 0 {
        assert(rs.take(0) =~= Seq::<EntryResult>::empty());
        assert(sort_by_name(rs, 0).to_multiset() =~= rs.take(0).to_multiset());
    } else {
        lemma_sort_results_permutes(rs, n - 1);
        lemma_sorted_insert_multiset(sort_by_name(rs, n - 1), rs[n - 1]);
        assert(rs.take(n) =~= rs.take(n - 1).push(rs[n - 1]));
        assert(rs.take(n - 1).push(rs[n - 1]).to_multiset() =~= rs.take(
            n - 1,
        ).to_multiset().insert(rs[n - 1]));
    }
}

/// Inserting adds exactly the one result to the collection.
proof fn lemma_sorted_insert_multiset(s: Seq<EntryResult>, e: EntryResult)
    ensures
        sorted_insert(s, e).to_multiset() == s.to_multiset().insert(e),
    decreases s.len(),
{
    broadcast use vstd::seq_lib::group_to_multiset_ensures;

    if s.len() == 0 {
        assert(sorted_insert(s, e) =~= s.insert(0, e));
        vstd::seq_lib::to_multiset_insert(s, 0, e);
    } else if bytes_le(name_key(s[0]), name_key(e)) {
        lemma_sorted_insert_multiset(s.drop_first(), e);
        let rest_ins = sorted_insert(s.drop_first(), e);
        vstd::seq_lib::lemma_multiset_commutative(seq![s[0]], rest_ins);
        assert(s =~= seq![s[0]] + s.drop_first());
        vstd::seq_lib::lemma_multiset_commutative(seq![s[0]], s.drop_first());
        assert((seq![s[0]] + rest_ins).to_multiset() =~= s.to_multiset().insert(e));
    } else {
        assert(sorted_insert(s, e) =~= s.insert(0, e));
        vstd::seq_lib::to_multiset_insert(s, 0, e);
    }
}

} // verus!
