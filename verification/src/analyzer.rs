//! The orchestrator: size gate, end-of-central-directory location,
//! central-directory walk, the per-member verification pass, and the
//! final aggregation into a deterministic report.
use vstd::prelude::*;
use vstd::slice::slice_subrange;
use crate::report::Buckets;
use crate::report::Totals;
use crate::report::buckets_of;
use crate::report::build_buckets;
use crate::report::build_histogram;
use crate::report::hist_of;
use crate::report::merge_results;
use crate::report::render_report;
use crate::report::report_chars;
use crate::report::sort_results;
use crate::report::sum_comp;
use crate::report::sum_stored;
use crate::report::totals_of;
use crate::worker::EntryResult;
use crate::worker::process_entry;
use crate::worker::spec_process_status;
use crate::zip::reader::ArchiveError;
use crate::zip::reader::cd_entries_from;
use crate::zip::reader::cd_ok_from;
use crate::zip::reader::entry_views;
use crate::zip::reader::eocd_valid_at;
use crate::zip::reader::le16;
use crate::zip::reader::le32;
use crate::zip::reader::locate_eocd;
use crate::zip::reader::parse_central_directory;

pub mod zip;

verus! {

/// Options for one run.
#[derive(Clone, Copy, Debug)]
pub struct AnalyzeOptions {
    /// Decode Store members.
    pub allow_store: bool,
    /// Decode Deflate members.
    pub allow_deflate: bool,
    /// Emit the per-member report section.
    pub detailed: bool,
}

/// Everything one run yields: per-member results in name order, the
/// aggregates over them, and the rendered report.
#[derive(Debug)]
pub struct Analysis {
    /// Number of central-directory records, as declared and as parsed.
    pub entry_count: u64,
    /// Run totals, each one a sum over `results`.
    pub totals: Totals,
    /// Method histogram, ordered by method code.
    pub histogram: Vec<(u16, u64)>,
    /// Size-bucket table over claimed stored sizes.
    pub buckets: Buckets,
    /// Per-member results, sorted by decoded name.
    pub results: Vec<EntryResult>,
    /// The deterministic text report.
    pub report: String,
}

/// `p` is the position of the one end-of-central-directory record the
/// locator accepts: well-formed, and last such.
pub open spec fn is_last_eocd(s: Seq<u8>, p: int) -> bool {
    eocd_valid_at(s, p) && forall|q: int| q > p ==> !eocd_valid_at(s, q)
}

/// At most one position can be the accepted record.
pub proof fn lemma_last_eocd_unique(s: Seq<u8>, p1: int, p2: int)
    requires
        is_last_eocd(s, p1),
        is_last_eocd(s, p2),
    ensures
        p1 == p2,
{
    if p1 < p2 {
        assert(!eocd_valid_at(s, p2));
    } else if p2 < p1 {
        assert(!eocd_valid_at(s, p1));
    }
}

/// The central-directory offset the record at `p` declares.
pub open spec fn eocd_cd_offset(s: Seq<u8>, p: int) -> int {
    le32(s, p + 16)
}

/// The central-directory size the record at `p` declares.
pub open spec fn eocd_cd_size(s: Seq<u8>, p: int) -> int {
    le32(s, p + 12)
}

/// The entry total the record at `p` declares.
pub open spec fn eocd_total(s: Seq<u8>, p: int) -> int {
    le16(s, p + 10)
}

/// The declared central directory lies wholly before the record.
pub open spec fn cd_in_range(s: Seq<u8>, p: int) -> bool {
    eocd_cd_offset(s, p) + eocd_cd_size(s, p) <= p
}

/// The declared central-directory bytes.
pub open spec fn cd_seq(s: Seq<u8>, p: int) -> Seq<u8> {
    s.subrange(eocd_cd_offset(s, p), eocd_cd_offset(s, p) + eocd_cd_size(s, p))
}

/// The first `m` parsed members get through their per-member pass
/// without an archive-level fault.
pub open spec fn processable_upto(
    s: Seq<u8>,
    p: int,
    allow_store: bool,
    allow_deflate: bool,
    m: int,
) -> bool {
    forall|k: int|
        0 <= k < m ==> spec_process_status(
            s,
            #[trigger] cd_entries_from(cd_seq(s, p), 0, eocd_total(s, p) as nat)[k],
            eocd_cd_offset(s, p) as u32,
            allow_store,
            allow_deflate,
        ) is Some
}

/// Every parsed member gets through its per-member pass without an
/// archive-level fault.
pub open spec fn all_processable(
    s: Seq<u8>,
    p: int,
    allow_store: bool,
    allow_deflate: bool,
) -> bool {
    processable_upto(s, p, allow_store, allow_deflate, eocd_total(s, p))
}

/// The whole pipeline goes through at the accepted record `p`.
pub open spec fn pipeline_ok(s: Seq<u8>, p: int, allow_store: bool, allow_deflate: bool) -> bool {
    &&& is_last_eocd(s, p)
    &&& cd_in_range(s, p)
    &&& cd_ok_from(cd_seq(s, p), 0, eocd_total(s, p) as nat)
    &&& all_processable(s, p, allow_store, allow_deflate)
}

/// The per-result facts the run promises of every reported member:
/// sizes fit the 32-bit format, a passing member produced exactly the
/// claimed byte count under the claimed checksum, and a passing Store
/// member was stored without expansion or truncation.
pub open spec fn result_wf(r: EntryResult) -> bool {
    &&& r.stored_size <= u32::MAX
    &&& r.compressed_size <= u32::MAX
    &&& (r.status is Passed ==> r.size_observed == Some(r.stored_size))
    &&& (r.status is Passed ==> r.crc_observed == Some(r.crc_claimed))
    &&& ((r.status is Passed && r.method == 0) ==> r.compressed_size == r.stored_size)
}

/// All members of a result list satisfy `result_wf`.
pub open spec fn all_wf(rs: Seq<EntryResult>) -> bool {
    forall|k: int| 0 <= k < rs.len() ==> result_wf(#[trigger] rs[k])
}

/// Inserting a well-formed result keeps a sorted list well-formed.
proof fn lemma_sorted_insert_wf(s: Seq<EntryResult>, e: EntryResult)
    requires
        all_wf(s),
        result_wf(e),
    ensures
        all_wf(crate::report::sorted_insert(s, e)),
    decreases s.len(),
{
    if s.len() > 0 && crate::report::bytes_le(
        crate::report::name_key(s[0]),
        crate::report::name_key(e),
    ) {
        assert(all_wf(s.drop_first()));
        lemma_sorted_insert_wf(s.drop_first(), e);
        assert forall|k: int|
            0 <= k < crate::report::sorted_insert(s, e).len() implies result_wf(
            #[trigger] crate::report::sorted_insert(s, e)[k],
        ) by {
            if k > 0 {
                assert(crate::report::sorted_insert(s, e)[k] == crate::report::sorted_insert(
                    s.drop_first(),
                    e,
                )[k - 1]);
            }
        }
    }
}

/// Sorting keeps every per-result fact.
proof fn lemma_sort_wf(rs: Seq<EntryResult>, n: int)
    requires
        0 <= n <= rs.len(),
        all_wf(rs),
    ensures
        all_wf(crate::report::sort_by_name(rs, n)),
    decreases n,
{
    if n > 0 {
        lemma_sort_wf(rs, n - 1);
        lemma_sorted_insert_wf(crate::report::sort_by_name(rs, n - 1), rs[n - 1]);
    }
}

/// A list of results whose sizes fit the 32-bit format has bounded sums.
proof fn lemma_sum_bounds(rs: Seq<EntryResult>, n: int)
    requires
        0 <= n <= rs.len(),
        all_wf(rs),
    ensures
        sum_stored(rs, n) <= n * (u32::MAX as int),
        sum_comp(rs, n) <= n * (u32::MAX as int),
    decreases n,
{
    if n > 0 {
        lemma_sum_bounds(rs, n - 1);
        assert(result_wf(rs[n - 1]));
        assert((n - 1) * (u32::MAX as int) + (u32::MAX as int) == n * (u32::MAX as int))
            by (nonlinear_arith);
    }
}

/// Checks a file length against the format's size cap before any byte
/// is mapped or read.
pub fn check_archive_size(len: u64) -> (r: Result<(), ArchiveError>)
    ensures
        r is Ok <==> len <= crate::MAX_SIZE,
        len > crate::MAX_SIZE ==> (r matches Err(ArchiveError::SizeLimit { size }) && size == len),
{
    if len > crate::MAX_SIZE {
        Err(ArchiveError::SizeLimit { size: len })
    } else {
        Ok(())
    }
}

/// Runs the whole analysis over the archive bytes: size gate, locator,
/// central-directory walk, per-member verification, aggregation, and
/// the deterministic report. Entry-level findings are reported in the
/// results; only a broken container aborts. The duration and path are
/// the caller's measurements, echoed into the report header.
pub fn analyze(data: &[u8], duration_ms: u64, path: &str, opts: &AnalyzeOptions) -> (r: Result<
    Analysis,
    ArchiveError,
>)
    ensures
        r is Ok <==> (data@.len() <= crate::MAX_SIZE && exists|p: int|
            pipeline_ok(data@, p, opts.allow_store, opts.allow_deflate)),
        data@.len() > crate::MAX_SIZE ==> (r matches Err(ArchiveError::SizeLimit { size })
            && size == data@.len()),
        (data@.len() <= crate::MAX_SIZE && (forall|q: int| !eocd_valid_at(data@, q))) ==> (
        r matches Err(ArchiveError::ArchiveMalformed { reason }) && reason@ == "EOCD not found"@),
        (r is Err && data@.len() <= crate::MAX_SIZE) ==> r matches Err(
            ArchiveError::ArchiveMalformed { .. },
        ),
        (r matches Ok(a) ==> {
            &&& exists|p: int|
                pipeline_ok(data@, p, opts.allow_store, opts.allow_deflate)
                    && #[trigger] is_last_eocd(data@, p) && a.entry_count == eocd_total(data@, p)
            &&& a.results@.len() == a.entry_count
            &&& all_wf(a.results@)
            &&& a.totals == totals_of(a.results@)
            &&& a.totals.files == a.entry_count
            &&& a.histogram@ == hist_of(a.results@, a.results@.len() as int)
            &&& a.buckets == buckets_of(a.results@)
            &&& a.report@ == report_chars(
                a.results@,
                a.histogram@,
                a.buckets,
                a.totals,
                duration_ms,
                path@,
                opts.detailed,
            )
            &&& crate::report::results_sorted(a.results@)
            &&& forall|m: u16|
                crate::report::hist_lookup(a.histogram@, m) == crate::report::method_count(
                    a.results@,
                    a.results@.len() as int,
                    m,
                )
        }),
{
    let ghost s = data@;
    if data.len() as u64 > crate::MAX_SIZE {
        return Err(ArchiveError::SizeLimit { size: data.len() as u64 });
    }
    let eocd = match locate_eocd(data) {
        Ok(e) => e,
        Err(err) => {
            proof {
                assert forall|p: int| !pipeline_ok(s, p, opts.allow_store, opts.allow_deflate) by {
                    assert(!eocd_valid_at(s, p));
                }
            }
            return Err(err);
        },
    };
    let ghost p = eocd.eocd_offset as int;
    proof {
        assert(is_last_eocd(s, p));
    }
    let cd_offset = eocd.cd_offset as u64;
    let cd_size = eocd.cd_size as u64;
    if cd_offset + cd_size > eocd.eocd_offset {
        proof {
            assert forall|p2: int| !pipeline_ok(s, p2, opts.allow_store, opts.allow_deflate) by {
                if is_last_eocd(s, p2) {
                    lemma_last_eocd_unique(s, p, p2);
                }
            }
        }
        return Err(ArchiveError::ArchiveMalformed { reason: "CD out of range".to_owned() });
    }
    let cd = slice_subrange(data, cd_offset as usize, (cd_offset + cd_size) as usize);
    proof {
        assert(cd@ == cd_seq(s, p));
    }
    let entries = match parse_central_directory(cd, eocd.total_entries) {
        Ok(v) => v,
        Err(err) => {
            proof {
                assert forall|p2: int|
                    !pipeline_ok(s, p2, opts.allow_store, opts.allow_deflate) by {
                    if is_last_eocd(s, p2) {
                        lemma_last_eocd_unique(s, p, p2);
                    }
                }
            }
            return Err(err);
        },
    };
    let ghost evs = cd_entries_from(cd_seq(s, p), 0, eocd_total(s, p) as nat);
    let n = entries.len();
    let mut results: Vec<EntryResult> = Vec::new();
    let mut k: usize = 0;
    while k < n
        invariant
            s == data@,
            s.len() <= crate::MAX_SIZE,
            is_last_eocd(s, p),
            cd_in_range(s, p),
            cd_ok_from(cd_seq(s, p), 0, eocd_total(s, p) as nat),
            n == entries@.len(),
            n == eocd_total(s, p),
            entry_views(entries@) == evs,
            evs == cd_entries_from(cd_seq(s, p), 0, eocd_total(s, p) as nat),
            eocd_cd_offset(s, p) <= s.len(),
            eocd_cd_offset(s, p) == cd_offset,
            cd_offset <= u32::MAX,
            0 <= k <= n,
            results@.len() == k,
            all_wf(results@),
            processable_upto(s, p, opts.allow_store, opts.allow_deflate, k as int),
        decreases n - k,
    {
        proof {
            assert(entry_views(entries@)[k as int] == entries@[k as int]@);
            assert(entries@[k as int]@ == cd_entries_from(
                cd_seq(s, p),
                0,
                eocd_total(s, p) as nat,
            )[k as int]);
        }
        match process_entry(data, &entries[k], cd_offset as u32, opts.allow_store,
            opts.allow_deflate) {
            Ok(res) => {
                proof {
                    assert(result_wf(res));
                }
                results.push(res);
                proof {
                    assert(all_wf(results@));
                }
            },
            Err(err) => {
                proof {
                    assert(spec_process_status(
                        s,
                        cd_entries_from(cd_seq(s, p), 0, eocd_total(s, p) as nat)[k as int],
                        eocd_cd_offset(s, p) as u32,
                        opts.allow_store,
                        opts.allow_deflate,
                    ) is None);
                    assert forall|p2: int|
                        !pipeline_ok(s, p2, opts.allow_store, opts.allow_deflate) by {
                        if is_last_eocd(s, p2) {
                            lemma_last_eocd_unique(s, p, p2);
                        }
                    }
                }
                return Err(err);
            },
        }
        k = k + 1;
    }
    proof {
        assert(pipeline_ok(s, p, opts.allow_store, opts.allow_deflate));
        lemma_sort_wf(results@, results@.len() as int);
        crate::report::lemma_sort_results_sorted(results@, results@.len() as int);
    }
    let entry_count = n as u64;
    let sorted = sort_results(results);
    proof {
        lemma_sum_bounds(sorted@, sorted@.len() as int);
        assert(sorted@.len() * (u32::MAX as int) <= 65535 * (u32::MAX as int))
            by (nonlinear_arith)
            requires
                sorted@.len() <= 65535,
        ;
    }
    let totals = merge_results(&sorted);
    let histogram = build_histogram(&sorted);
    let buckets = build_buckets(&sorted);
    proof {
        assert forall|m: u16|
            crate::report::hist_lookup(hist_of(sorted@, sorted@.len() as int), m)
                == crate::report::method_count(sorted@, sorted@.len() as int, m) by {
            crate::report::lemma_histogram_exact(sorted@, sorted@.len() as int, m);
        }
    }
    let report = render_report(&sorted, &histogram, &buckets, &totals, duration_ms, path,
        opts.detailed);
    Ok(
        Analysis {
            entry_count,
            totals,
            histogram,
            buckets,
            results: sorted,
            report,
        },
    )
}

} // verus!
