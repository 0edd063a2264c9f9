//! The decode worker: per-member integrity verification. A Store member
//! is checksummed directly; a Deflate member is decoded first; every
//! other method is reported and skipped. The local file header is
//! cross-checked here, on the worker's path, as the orchestrator hands
//! out whole members.
use vstd::prelude::*;
use vstd::slice::slice_subrange;
use vstd::slice::slice_to_vec;
use crate::codec::crc32;
use crate::codec::crc32_of;
use crate::codec::inflate;
use crate::codec::inflate_of;
use crate::codec::utf8_lossy;
use crate::codec::utf8_lossy_of;
use crate::text::push_char;
use crate::zip::reader::ArchiveError;
use crate::zip::reader::CdEntry;
use crate::zip::reader::CdEntryS;
use crate::zip::reader::LfhError;
use crate::zip::reader::MismatchField;
use crate::zip::reader::check_local_header;
use crate::zip::reader::lfh_comp_ok;
use crate::zip::reader::lfh_crc_ok;
use crate::zip::reader::lfh_data_start;
use crate::zip::reader::lfh_fits;
use crate::zip::reader::lfh_method_ok;
use crate::zip::reader::lfh_sig_ok;
use crate::zip::reader::lfh_stored_ok;

verus! {

/// Why a member was left undecoded.
#[derive(Clone, Copy, Debug, PartialEq, Eq, Structural)]
pub enum SkipKind {
    /// The compression method is outside the supported set.
    UnsupportedMethod(u16),
    /// The caller's method filter excluded the member.
    Filtered,
}

/// Why a member failed verification.
#[derive(Clone, Copy, Debug, PartialEq, Eq, Structural)]
pub enum FailKind {
    /// The observed CRC-32 differs from the claimed one.
    CrcMismatch,
    /// The observed byte count differs from the claimed one.
    SizeMismatch,
    /// The compressed stream is not well-formed deflate.
    DecodeError,
    /// The stored name contains a NUL byte.
    InvalidName,
    /// A local-header field disagrees with the central directory, or an
    /// entry invariant fails.
    Inconsistent(MismatchField),
}

/// The verdict on one member.
#[derive(Clone, Copy, Debug, PartialEq, Eq, Structural)]
pub enum EntryStatus {
    /// Sizes and checksum all agree.
    Passed,
    /// Left undecoded, deliberately.
    Skipped(SkipKind),
    /// Verification failed.
    Failed(FailKind),
}

/// The character a CP437 byte decodes to.
pub open spec fn cp437_char(b: u8) -> char {
    if b < 128 {
        b as char
    } else {
        cp437_high_char(b)
    }
}

/// The upper half of the CP437 table.
pub open spec fn cp437_high_char(b: u8) -> char {
    match b {
        128u8 => '\u{00C7}',
        129u8 => '\u{00FC}',
        130u8 => '\u{00E9}',
        131u8 => '\u{00E2}',
        132u8 => '\u{00E4}',
        133u8 => '\u{00E0}',
        134u8 => '\u{00E5}',
        135u8 => '\u{00E7}',
        136u8 => '\u{00EA}',
        137u8 => '\u{00EB}',
        138u8 => '\u{00E8}',
        139u8 => '\u{00EF}',
        140u8 => '\u{00EE}',
        141u8 => '\u{00EC}',
        142u8 => '\u{00C4}',
        143u8 => '\u{00C5}',
        144u8 => '\u{00C9}',
        145u8 => '\u{00E6}',
        146u8 => '\u{00C6}',
        147u8 => '\u{00F4}',
        148u8 => '\u{00F6}',
        149u8 => '\u{00F2}',
        150u8 => '\u{00FB}',
        151u8 => '\u{00F9}',
        152u8 => '\u{00FF}',
        153u8 => '\u{00D6}',
        154u8 => '\u{00DC}',
        155u8 => '\u{00A2}',
        156u8 => '\u{00A3}',
        157u8 => '\u{00A5}',
        158u8 => '\u{20A7}',
        159u8 => '\u{0192}',
        160u8 => '\u{00E1}',
        161u8 => '\u{00ED}',
        162u8 => '\u{00F3}',
        163u8 => '\u{00FA}',
        164u8 => '\u{00F1}',
        165u8 => '\u{00D1}',
        166u8 => '\u{00AA}',
        167u8 => '\u{00BA}',
        168u8 => '\u{00BF}',
        169u8 => '\u{2310}',
        170u8 => '\u{00AC}',
        171u8 => '\u{00BD}',
        172u8 => '\u{00BC}',
        173u8 => '\u{00A1}',
        174u8 => '\u{00AB}',
        175u8 => '\u{00BB}',
        176u8 => '\u{2591}',
        177u8 => '\u{2592}',
        178u8 => '\u{2593}',
        179u8 => '\u{2502}',
        180u8 => '\u{2524}',
        181u8 => '\u{2561}',
        182u8 => '\u{2562}',
        183u8 => '\u{2556}',
        184u8 => '\u{2555}',
        185u8 => '\u{2563}',
        186u8 => '\u{2551}',
        187u8 => '\u{2557}',
        188u8 => '\u{255D}',
        189u8 => '\u{255C}',
        190u8 => '\u{255B}',
        191u8 => '\u{2510}',
        192u8 => '\u{2514}',
        193u8 => '\u{2534}',
        194u8 => '\u{252C}',
        195u8 => '\u{251C}',
        196u8 => '\u{2500}',
        197u8 => '\u{253C}',
        198u8 => '\u{255E}',
        199u8 => '\u{255F}',
        200u8 => '\u{255A}',
        201u8 => '\u{2554}',
        202u8 => '\u{2569}',
        203u8 => '\u{2566}',
        204u8 => '\u{2560}',
        205u8 => '\u{2550}',
        206u8 => '\u{256C}',
        207u8 => '\u{2567}',
        208u8 => '\u{2568}',
        209u8 => '\u{2564}',
        210u8 => '\u{2565}',
        211u8 => '\u{2559}',
        212u8 => '\u{2558}',
        213u8 => '\u{2552}',
        214u8 => '\u{2553}',
        215u8 => '\u{256B}',
        216u8 => '\u{256A}',
        217u8 => '\u{2518}',
        218u8 => '\u{250C}',
        219u8 => '\u{2588}',
        220u8 => '\u{2584}',
        221u8 => '\u{258C}',
        222u8 => '\u{2590}',
        223u8 => '\u{2580}',
        224u8 => '\u{03B1}',
        225u8 => '\u{00DF}',
        226u8 => '\u{0393}',
        227u8 => '\u{03C0}',
        228u8 => '\u{03A3}',
        229u8 => '\u{03C3}',
        230u8 => '\u{00B5}',
        231u8 => '\u{03C4}',
        232u8 => '\u{03A6}',
        233u8 => '\u{0398}',
        234u8 => '\u{03A9}',
        235u8 => '\u{03B4}',
        236u8 => '\u{221E}',
        237u8 => '\u{03C6}',
        238u8 => '\u{03B5}',
        239u8 => '\u{2229}',
        240u8 => '\u{2261}',
        241u8 => '\u{00B1}',
        242u8 => '\u{2265}',
        243u8 => '\u{2264}',
        244u8 => '\u{2320}',
        245u8 => '\u{2321}',
        246u8 => '\u{00F7}',
        247u8 => '\u{2248}',
        248u8 => '\u{00B0}',
        249u8 => '\u{2219}',
        250u8 => '\u{00B7}',
        251u8 => '\u{221A}',
        252u8 => '\u{207F}',
        253u8 => '\u{00B2}',
        254u8 => '\u{25A0}',
        255u8 => '\u{00A0}',
        _ => ' ',
    }
}

/// Decodes one CP437 byte.
pub fn cp437(b: u8) -> (c: char)
    ensures
        c == cp437_char(b),
{
    if b < 128 {
        b as char
    } else {
        match b {
        128u8 => '\u{00C7}',
        129u8 => '\u{00FC}',
        130u8 => '\u{00E9}',
        131u8 => '\u{00E2}',
        132u8 => '\u{00E4}',
        133u8 => '\u{00E0}',
        134u8 => '\u{00E5}',
        135u8 => '\u{00E7}',
        136u8 => '\u{00EA}',
        137u8 => '\u{00EB}',
        138u8 => '\u{00E8}',
        139u8 => '\u{00EF}',
        140u8 => '\u{00EE}',
        141u8 => '\u{00EC}',
        142u8 => '\u{00C4}',
        143u8 => '\u{00C5}',
        144u8 => '\u{00C9}',
        145u8 => '\u{00E6}',
        146u8 => '\u{00C6}',
        147u8 => '\u{00F4}',
        148u8 => '\u{00F6}',
        149u8 => '\u{00F2}',
        150u8 => '\u{00FB}',
        151u8 => '\u{00F9}',
        152u8 => '\u{00FF}',
        153u8 => '\u{00D6}',
        154u8 => '\u{00DC}',
        155u8 => '\u{00A2}',
        156u8 => '\u{00A3}',
        157u8 => '\u{00A5}',
        158u8 => '\u{20A7}',
        159u8 => '\u{0192}',
        160u8 => '\u{00E1}',
        161u8 => '\u{00ED}',
        162u8 => '\u{00F3}',
        163u8 => '\u{00FA}',
        164u8 => '\u{00F1}',
        165u8 => '\u{00D1}',
        166u8 => '\u{00AA}',
        167u8 => '\u{00BA}',
        168u8 => '\u{00BF}',
        169u8 => '\u{2310}',
        170u8 => '\u{00AC}',
        171u8 => '\u{00BD}',
        172u8 => '\u{00BC}',
        173u8 => '\u{00A1}',
        174u8 => '\u{00AB}',
        175u8 => '\u{00BB}',
        176u8 => '\u{2591}',
        177u8 => '\u{2592}',
        178u8 => '\u{2593}',
        179u8 => '\u{2502}',
        180u8 => '\u{2524}',
        181u8 => '\u{2561}',
        182u8 => '\u{2562}',
        183u8 => '\u{2556}',
        184u8 => '\u{2555}',
        185u8 => '\u{2563}',
        186u8 => '\u{2551}',
        187u8 => '\u{2557}',
        188u8 => '\u{255D}',
        189u8 => '\u{255C}',
        190u8 => '\u{255B}',
        191u8 => '\u{2510}',
        192u8 => '\u{2514}',
        193u8 => '\u{2534}',
        194u8 => '\u{252C}',
        195u8 => '\u{251C}',
        196u8 => '\u{2500}',
        197u8 => '\u{253C}',
        198u8 => '\u{255E}',
        199u8 => '\u{255F}',
        200u8 => '\u{255A}',
        201u8 => '\u{2554}',
        202u8 => '\u{2569}',
        203u8 => '\u{2566}',
        204u8 => '\u{2560}',
        205u8 => '\u{2550}',
        206u8 => '\u{256C}',
        207u8 => '\u{2567}',
        208u8 => '\u{2568}',
        209u8 => '\u{2564}',
        210u8 => '\u{2565}',
        211u8 => '\u{2559}',
        212u8 => '\u{2558}',
        213u8 => '\u{2552}',
        214u8 => '\u{2553}',
        215u8 => '\u{256B}',
        216u8 => '\u{256A}',
        217u8 => '\u{2518}',
        218u8 => '\u{250C}',
        219u8 => '\u{2588}',
        220u8 => '\u{2584}',
        221u8 => '\u{258C}',
        222u8 => '\u{2590}',
        223u8 => '\u{2580}',
        224u8 => '\u{03B1}',
        225u8 => '\u{00DF}',
        226u8 => '\u{0393}',
        227u8 => '\u{03C0}',
        228u8 => '\u{03A3}',
        229u8 => '\u{03C3}',
        230u8 => '\u{00B5}',
        231u8 => '\u{03C4}',
        232u8 => '\u{03A6}',
        233u8 => '\u{0398}',
        234u8 => '\u{03A9}',
        235u8 => '\u{03B4}',
        236u8 => '\u{221E}',
        237u8 => '\u{03C6}',
        238u8 => '\u{03B5}',
        239u8 => '\u{2229}',
        240u8 => '\u{2261}',
        241u8 => '\u{00B1}',
        242u8 => '\u{2265}',
        243u8 => '\u{2264}',
        244u8 => '\u{2320}',
        245u8 => '\u{2321}',
        246u8 => '\u{00F7}',
        247u8 => '\u{2248}',
        248u8 => '\u{00B0}',
        249u8 => '\u{2219}',
        250u8 => '\u{00B7}',
        251u8 => '\u{221A}',
        252u8 => '\u{207F}',
        253u8 => '\u{00B2}',
        254u8 => '\u{25A0}',
        255u8 => '\u{00A0}',
            _ => ' ',
        }
    }
}

/// The characters a stored name decodes to: UTF-8 when flag bit 11 is
/// set, CP437 otherwise.
pub open spec fn name_chars(raw: Seq<u8>, flags: u16) -> Seq<char> {
    if flags & 0x0800 != 0 {
        utf8_lossy_of(raw)
    } else {
        raw.map_values(|b: u8| cp437_char(b))
    }
}

/// Decodes a stored name by the flag-bit-11 rule.
pub fn decode_name(raw: &Vec<u8>, flags: u16) -> (r: String)
    ensures
        r@ == name_chars(raw@, flags),
{
    if flags & 0x0800 != 0 {
        utf8_lossy(raw)
    } else {
        let mut s = String::new();
        let mut i: usize = 0;
        while i < raw.len()
            invariant
                0 <= i <= raw@.len(),
                s@ == raw@.take(i as int).map_values(|b: u8| cp437_char(b)),
            decreases raw@.len() - i,
        {
            push_char(&mut s, cp437(raw[i]));
            i = i + 1;
            proof {
                assert(s@ =~= raw@.take(i as int).map_values(|b: u8| cp437_char(b)));
            }
        }
        proof {
            assert(raw@.take(raw@.len() as int) =~= raw@);
        }
        s
    }
}

/// The name holds a NUL byte somewhere.
pub open spec fn has_nul(raw: Seq<u8>) -> bool {
    exists|i: int| 0 <= i < raw.len() && raw[i] == 0
}

/// Scans a stored name for NUL bytes.
pub fn contains_nul(raw: &Vec<u8>) -> (r: bool)
    ensures
        r == has_nul(raw@),
{
    let mut i: usize = 0;
    while i < raw.len()
        invariant
            0 <= i <= raw@.len(),
            forall|j: int| 0 <= j < i ==> raw@[j] != 0,
        decreases raw@.len() - i,
    {
        if raw[i] == 0 {
            return true;
        }
        i = i + 1;
    }
    false
}

/// The outcome of one member's verification, claimed values beside the
/// observed ones.
#[derive(Debug, Clone)]
pub struct EntryResult {
    /// Decoded member name.
    pub name: String,
    /// The name exactly as stored.
    pub name_raw: Vec<u8>,
    /// Compression method code.
    pub method: u16,
    /// Claimed stored (uncompressed) size.
    pub stored_size: u64,
    /// Claimed compressed size.
    pub compressed_size: u64,
    /// Claimed CRC-32.
    pub crc_claimed: u32,
    /// CRC-32 computed over the decoded bytes, where decoding ran.
    pub crc_observed: Option<u32>,
    /// Decoded byte count, where decoding ran.
    pub size_observed: Option<u64>,
    /// The verdict.
    pub status: EntryStatus,
}

/// The verdict the decode pass reaches on a member whose compressed
/// bytes are `comp`.
pub open spec fn spec_verify_status(
    e: CdEntryS,
    comp: Seq<u8>,
    allow_store: bool,
    allow_deflate: bool,
) -> EntryStatus {
    if has_nul(e.name_raw) {
        EntryStatus::Failed(FailKind::InvalidName)
    } else if e.method == 0 {
        if !allow_store {
            EntryStatus::Skipped(SkipKind::Filtered)
        } else if e.compressed_size != e.stored_size {
            EntryStatus::Failed(FailKind::SizeMismatch)
        } else if crc32_of(comp) != e.crc32 {
            EntryStatus::Failed(FailKind::CrcMismatch)
        } else {
            EntryStatus::Passed
        }
    } else if e.method == 8 {
        if !allow_deflate {
            EntryStatus::Skipped(SkipKind::Filtered)
        } else {
            match inflate_of(comp) {
                Option::None => EntryStatus::Failed(FailKind::DecodeError),
                Option::Some(out) => if out.len() != e.stored_size {
                    EntryStatus::Failed(FailKind::SizeMismatch)
                } else if crc32_of(out) != e.crc32 {
                    EntryStatus::Failed(FailKind::CrcMismatch)
                } else {
                    EntryStatus::Passed
                },
            }
        }
    } else {
        EntryStatus::Skipped(SkipKind::UnsupportedMethod(e.method))
    }
}

/// Verifies one member against its compressed bytes: Store is
/// checksummed as-is, Deflate is decoded first, and the observed byte
/// count and CRC-32 must both match the claims.
pub fn verify_entry(
    entry: &CdEntry,
    name: String,
    comp: &[u8],
    allow_store: bool,
    allow_deflate: bool,
) -> (r: EntryResult)
    requires
        comp@.len() == entry.compressed_size as int,
    ensures
        r.status == spec_verify_status(entry@, comp@, allow_store, allow_deflate),
        r.name@ == name@,
        r.name_raw@ == entry.name_raw@,
        r.method == entry.method,
        r.stored_size == entry.stored_size as u64,
        r.compressed_size == entry.compressed_size as u64,
        r.crc_claimed == entry.crc32,
        // A passing member produced exactly the claimed number of bytes.
        r.status is Passed ==> r.size_observed == Some(entry.stored_size as u64),
        // A passing member's observed CRC-32 equals the claimed one.
        r.status is Passed ==> r.crc_observed == Some(entry.crc32),
        // A passing Store member's compressed size equals its stored size.
        (r.status is Passed && entry.method == 0) ==> entry.compressed_size == entry.stored_size,
{
    let name_raw = slice_to_vec(entry.name_raw.as_slice());
    let mut crc_observed: Option<u32> = None;
    let mut size_observed: Option<u64> = None;
    let status: EntryStatus;
    if contains_nul(&entry.name_raw) {
        status = EntryStatus::Failed(FailKind::InvalidName);
    } else if entry.method == 0 {
        if !allow_store {
            status = EntryStatus::Skipped(SkipKind::Filtered);
        } else if entry.compressed_size != entry.stored_size {
            status = EntryStatus::Failed(FailKind::SizeMismatch);
        } else {
            let c = crc32(comp);
            crc_observed = Some(c);
            size_observed = Some(comp.len() as u64);
            if c != entry.crc32 {
                status = EntryStatus::Failed(FailKind::CrcMismatch);
            } else {
                status = EntryStatus::Passed;
            }
        }
    } else if entry.method == 8 {
        if !allow_deflate {
            status = EntryStatus::Skipped(SkipKind::Filtered);
        } else {
            match inflate(comp) {
                Err(_) => {
                    status = EntryStatus::Failed(FailKind::DecodeError);
                },
                Ok(out) => {
                    let c = crc32(out.as_slice());
                    crc_observed = Some(c);
                    size_observed = Some(out.len() as u64);
                    if out.len() as u64 != entry.stored_size as u64 {
                        status = EntryStatus::Failed(FailKind::SizeMismatch);
                    } else if c != entry.crc32 {
                        status = EntryStatus::Failed(FailKind::CrcMismatch);
                    } else {
                        status = EntryStatus::Passed;
                    }
                },
            }
        }
    } else {
        status = EntryStatus::Skipped(SkipKind::UnsupportedMethod(entry.method));
    }
    EntryResult {
        name,
        name_raw,
        method: entry.method,
        stored_size: entry.stored_size as u64,
        compressed_size: entry.compressed_size as u64,
        crc_claimed: entry.crc32,
        crc_observed,
        size_observed,
        status,
    }
}

/// Builds the result for a member whose bytes were never read.
fn make_result(entry: &CdEntry, name: String, status: EntryStatus) -> (r: EntryResult)
    ensures
        r.status == status,
        r.name@ == name@,
        r.name_raw@ == entry.name_raw@,
        r.method == entry.method,
        r.stored_size == entry.stored_size as u64,
        r.compressed_size == entry.compressed_size as u64,
        r.crc_claimed == entry.crc32,
        r.crc_observed is None,
        r.size_observed is None,
{
    EntryResult {
        name,
        name_raw: slice_to_vec(entry.name_raw.as_slice()),
        method: entry.method,
        stored_size: entry.stored_size as u64,
        compressed_size: entry.compressed_size as u64,
        crc_claimed: entry.crc32,
        crc_observed: None,
        size_observed: None,
        status,
    }
}

/// The verdict the whole per-member pass reaches, local-header checks
/// included; `None` where a broken local header aborts the run.
pub open spec fn spec_process_status(
    s: Seq<u8>,
    e: CdEntryS,
    cd_offset: u32,
    allow_store: bool,
    allow_deflate: bool,
) -> Option<EntryStatus> {
    if has_nul(e.name_raw) {
        Some(EntryStatus::Failed(FailKind::InvalidName))
    } else if e.method == 0 && !allow_store {
        Some(EntryStatus::Skipped(SkipKind::Filtered))
    } else if e.method == 8 && !allow_deflate {
        Some(EntryStatus::Skipped(SkipKind::Filtered))
    } else if e.method != 0 && e.method != 8 {
        Some(EntryStatus::Skipped(SkipKind::UnsupportedMethod(e.method)))
    } else if e.lfh_offset >= cd_offset {
        Some(EntryStatus::Failed(FailKind::Inconsistent(MismatchField::LfhOffset)))
    } else if !lfh_fits(s, e) {
        None
    } else if !lfh_sig_ok(s, e) {
        None
    } else if !lfh_method_ok(s, e) {
        Some(EntryStatus::Failed(FailKind::Inconsistent(MismatchField::Method)))
    } else if !lfh_crc_ok(s, e) {
        Some(EntryStatus::Failed(FailKind::Inconsistent(MismatchField::Crc)))
    } else if !lfh_comp_ok(s, e) {
        Some(EntryStatus::Failed(FailKind::Inconsistent(MismatchField::CompressedSize)))
    } else if !lfh_stored_ok(s, e) {
        Some(EntryStatus::Failed(FailKind::Inconsistent(MismatchField::StoredSize)))
    } else if lfh_data_start(s, e) + e.compressed_size > cd_offset {
        Some(EntryStatus::Failed(FailKind::Inconsistent(MismatchField::CompressedSize)))
    } else {
        Some(
            spec_verify_status(
                e,
                s.subrange(lfh_data_start(s, e), lfh_data_start(s, e) + e.compressed_size),
                allow_store,
                allow_deflate,
            ),
        )
    }
}

/// Runs the whole per-member pass: name and filter checks, the
/// local-header cross-check, then the decode-and-verify step on the
/// member's byte range, which must lie before the central directory.
pub fn process_entry(
    data: &[u8],
    entry: &CdEntry,
    cd_offset: u32,
    allow_store: bool,
    allow_deflate: bool,
) -> (r: Result<EntryResult, ArchiveError>)
    requires
        cd_offset as int <= data@.len(),
    ensures
        r is Ok <==> spec_process_status(data@, entry@, cd_offset, allow_store, allow_deflate)
            is Some,
        (r matches Ok(res) ==> {
            &&& Some(res.status) == spec_process_status(
                data@,
                entry@,
                cd_offset,
                allow_store,
                allow_deflate,
            )
            &&& res.name@ == name_chars(entry.name_raw@, entry.flags)
            &&& res.name_raw@ == entry.name_raw@
            &&& res.method == entry.method
            &&& res.stored_size == entry.stored_size as u64
            &&& res.compressed_size == entry.compressed_size as u64
            &&& res.crc_claimed == entry.crc32
            &&& (res.status is Passed ==> res.size_observed == Some(entry.stored_size as u64))
            &&& (res.status is Passed ==> res.crc_observed == Some(entry.crc32))
            &&& ((res.status is Passed && entry.method == 0) ==> entry.compressed_size
                == entry.stored_size)
        }),
        (r matches Err(e) ==> e matches ArchiveError::ArchiveMalformed { .. }),
        (r matches Err(ArchiveError::ArchiveMalformed { reason }) ==> {
            &&& (!lfh_fits(data@, entry@) ==> reason@ == "LFH truncated"@)
            &&& (lfh_fits(data@, entry@) && !lfh_sig_ok(data@, entry@) ==> reason@
                == "LFH signature wrong"@)
        }),
{
    let name = decode_name(&entry.name_raw, entry.flags);
    if contains_nul(&entry.name_raw) {
        return Ok(make_result(entry, name, EntryStatus::Failed(FailKind::InvalidName)));
    }
    if entry.method == 0 && !allow_store {
        return Ok(make_result(entry, name, EntryStatus::Skipped(SkipKind::Filtered)));
    }
    if entry.method == 8 && !allow_deflate {
        return Ok(make_result(entry, name, EntryStatus::Skipped(SkipKind::Filtered)));
    }
    if entry.method != 0 && entry.method != 8 {
        return Ok(
            make_result(entry, name, EntryStatus::Skipped(SkipKind::UnsupportedMethod(entry.method))),
        );
    }
    if entry.lfh_offset >= cd_offset {
        return Ok(
            make_result(
                entry,
                name,
                EntryStatus::Failed(FailKind::Inconsistent(MismatchField::LfhOffset)),
            ),
        );
    }
    match check_local_header(data, entry) {
        Err(LfhError::Truncated) => Err(
            ArchiveError::ArchiveMalformed { reason: "LFH truncated".to_owned() },
        ),
        Err(LfhError::BadSignature) => Err(
            ArchiveError::ArchiveMalformed { reason: "LFH signature wrong".to_owned() },
        ),
        Err(LfhError::Mismatch(f)) => Ok(
            make_result(entry, name, EntryStatus::Failed(FailKind::Inconsistent(f))),
        ),
        Ok(ds) => {
            let comp = entry.compressed_size as u64;
            if ds + comp > cd_offset as u64 {
                return Ok(
                    make_result(
                        entry,
                        name,
                        EntryStatus::Failed(FailKind::Inconsistent(MismatchField::CompressedSize)),
                    ),
                );
            }
            let comp_slice = slice_subrange(data, ds as usize, (ds + comp) as usize);
            Ok(verify_entry(entry, name, comp_slice, allow_store, allow_deflate))
        },
    }
}

} // verus!
