//! Binary readers for the ZIP container: little-endian field access, the
//! end-of-central-directory locator, and the central-directory walk.
use vstd::prelude::*;
use vstd::slice::slice_subrange;
use vstd::slice::slice_to_vec;

verus! {

pub const ZIP_LOCAL_HEADER_SIGNATURE: u32 = 0x04034b50;

pub const ZIP_CENTRAL_DIR_SIGNATURE: u32 = 0x02014b50;

pub const ZIP_END_OF_CENTRAL_DIR_SIGNATURE: u32 = 0x06054b50;

/// Archive-level failures: these abort a whole run.
#[derive(Debug, Clone)]
pub enum ArchiveError {
    /// The archive exceeds the supported size.
    SizeLimit { size: u64 },
    /// A read failed at the given offset.
    IoError { offset: u64, cause: String },
    /// The container structure itself is broken.
    ArchiveMalformed { reason: String },
}

/// The 16-bit little-endian value at byte offset `i`.
pub open spec fn le16(s: Seq<u8>, i: int) -> int {
    s[i] + 256 * s[i + 1]
}

/// The 32-bit little-endian value at byte offset `i`.
pub open spec fn le32(s: Seq<u8>, i: int) -> int {
    le16(s, i) + 65536 * le16(s, i + 2)
}

/// Reads the 16-bit little-endian value at the start of a slice.
pub fn read_u16_le(data: &[u8]) -> (r: u16)
    requires
        data@.len() >= 2,
    ensures
        r as int == le16(data@, 0),
{
    read_u16_at(data, 0)
}

/// Reads the 32-bit little-endian value at the start of a slice.
pub fn read_u32_le(data: &[u8]) -> (r: u32)
    requires
        data@.len() >= 4,
    ensures
        r as int == le32(data@, 0),
{
    read_u32_at(data, 0)
}

/// Reads the 16-bit little-endian value at offset `off`.
pub fn read_u16_at(data: &[u8], off: usize) -> (r: u16)
    requires
        off + 2 <= data@.len(),
    ensures
        r as int == le16(data@, off as int),
{
    let b0 = data[off];
    let b1 = data[off + 1];
    b0 as u16 + (b1 as u16) * 256
}

/// Reads the 32-bit little-endian value at offset `off`.
pub fn read_u32_at(data: &[u8], off: usize) -> (r: u32)
    requires
        off + 4 <= data@.len(),
    ensures
        r as int == le32(data@, off as int),
{
    let b0 = data[off];
    let b1 = data[off + 1];
    let b2 = data[off + 2];
    let b3 = data[off + 3];
    b0 as u32 + (b1 as u32) * 256 + (b2 as u32) * 65536 + (b3 as u32) * 16777216
}

/// The decoded end-of-central-directory record.
#[derive(Debug, Clone)]
pub struct EocdInfo {
    /// Byte offset of the record's signature within the archive.
    pub eocd_offset: u64,
    /// Declared total number of central-directory records.
    pub total_entries: u16,
    /// Declared size of the central directory, in bytes.
    pub cd_size: u32,
    /// Declared byte offset of the central directory.
    pub cd_offset: u32,
    /// Declared length of the archive comment.
    pub comment_len: u16,
}

/// A well-formed end-of-central-directory record starts at `p`: the
/// signature matches and the declared comment length equals exactly the
/// bytes that follow the 22-byte fixed part. The equality disambiguates
/// archives whose comment embeds signature-like bytes.
pub open spec fn eocd_valid_at(s: Seq<u8>, p: int) -> bool {
    &&& 0 <= p
    &&& p + 22 <= s.len()
    &&& le32(s, p) == ZIP_END_OF_CENTRAL_DIR_SIGNATURE as int
    &&& le16(s, p + 20) == s.len() - p - 22
}

/// Scans the archive tail for the end-of-central-directory record and
/// decodes it, accepting the last position at which a well-formed record
/// starts.
pub fn locate_eocd(data: &[u8]) -> (r: Result<EocdInfo, ArchiveError>)
    ensures
        (r matches Ok(e) ==> {
            &&& eocd_valid_at(data@, e.eocd_offset as int)
            &&& forall|q: int| q > e.eocd_offset as int ==> !eocd_valid_at(data@, q)
            &&& e.total_entries as int == le16(data@, e.eocd_offset + 10)
            &&& e.cd_size as int == le32(data@, e.eocd_offset + 12)
            &&& e.cd_offset as int == le32(data@, e.eocd_offset + 16)
            &&& e.comment_len as int == le16(data@, e.eocd_offset + 20)
        }),
        r is Err ==> forall|q: int| !eocd_valid_at(data@, q),
        (r matches Err(ArchiveError::ArchiveMalformed { reason }) ==> reason@ == "EOCD not found"@),
        r is Err ==> r matches Err(ArchiveError::ArchiveMalformed { .. }),
{
    let len = data.len();
    if len < 22 {
        return Err(ArchiveError::ArchiveMalformed { reason: "EOCD not found".to_owned() });
    }
    let lower: usize = if len >= 65557 {
        len - 65557
    } else {
        0
    };
    let mut p: usize = len - 22;
    loop
        invariant
            len == data@.len(),
            22 <= len,
            lower == (if len >= 65557 {
                len - 65557
            } else {
                0
            }),
            lower <= p <= len - 22,
            forall|q: int| q > p ==> !eocd_valid_at(data@, q),
        decreases p,
    {
        let sig = read_u32_at(data, p);
        let declared = read_u16_at(data, p + 20);
        let rem = len - p - 22;
        if sig == ZIP_END_OF_CENTRAL_DIR_SIGNATURE && declared as usize == rem {
            return Ok(
                EocdInfo {
                    eocd_offset: p as u64,
                    total_entries: read_u16_at(data, p + 10),
                    cd_size: read_u32_at(data, p + 12),
                    cd_offset: read_u32_at(data, p + 16),
                    comment_len: declared,
                },
            );
        }
        if p == lower {
            proof {
                assert forall|q: int| !eocd_valid_at(data@, q) by {
                    if 0 <= q && q + 22 <= data@.len() && q < p {
                        // Positions below the scan floor would need a
                        // comment longer than the format allows.
                        assert(le16(data@, q + 20) <= 65535);
                    }
                }
            }
            return Err(ArchiveError::ArchiveMalformed { reason: "EOCD not found".to_owned() });
        }
        p = p - 1;
    }
}

/// One central-directory record, as the parser hands it on.
#[derive(Debug, Clone)]
pub struct CdEntry {
    /// The member name, exactly as stored.
    pub name_raw: Vec<u8>,
    /// General-purpose bit flags.
    pub flags: u16,
    /// Compression method code.
    pub method: u16,
    /// Last-modified time, MS-DOS format.
    pub mtime: u16,
    /// Last-modified date, MS-DOS format.
    pub mdate: u16,
    /// Claimed CRC-32 of the decoded bytes.
    pub crc32: u32,
    /// Claimed compressed size.
    pub compressed_size: u32,
    /// Claimed stored (uncompressed) size.
    pub stored_size: u32,
    /// External attributes.
    pub external_attrs: u32,
    /// Byte offset of the member's local file header.
    pub lfh_offset: u32,
}

/// The mathematical image of a `CdEntry`.
#[verifier::ext_equal]
pub struct CdEntryS {
    pub name_raw: Seq<u8>,
    pub flags: u16,
    pub method: u16,
    pub mtime: u16,
    pub mdate: u16,
    pub crc32: u32,
    pub compressed_size: u32,
    pub stored_size: u32,
    pub external_attrs: u32,
    pub lfh_offset: u32,
}

impl View for CdEntry {
    type V = CdEntryS;

    open spec fn view(&self) -> CdEntryS {
        CdEntryS {
            name_raw: self.name_raw@,
            flags: self.flags,
            method: self.method,
            mtime: self.mtime,
            mdate: self.mdate,
            crc32: self.crc32,
            compressed_size: self.compressed_size,
            stored_size: self.stored_size,
            external_attrs: self.external_attrs,
            lfh_offset: self.lfh_offset,
        }
    }
}

/// The images of a parsed entry list.
pub open spec fn entry_views(s: Seq<CdEntry>) -> Seq<CdEntryS> {
    s.map_values(|e: CdEntry| e@)
}

/// Total length of the variable part (name, extra, comment) of the
/// record at `p`.
pub open spec fn cd_var_len(s: Seq<u8>, p: int) -> int {
    le16(s, p + 28) + le16(s, p + 30) + le16(s, p + 32)
}

/// Total length of the record at `p`.
pub open spec fn cd_rec_len(s: Seq<u8>, p: int) -> int {
    46 + cd_var_len(s, p)
}

/// The fixed part of a record fits at `p`.
pub open spec fn cd_fixed_fits(s: Seq<u8>, p: int) -> bool {
    p + 46 <= s.len()
}

/// The record at `p` carries the central-directory signature.
pub open spec fn cd_sig_ok(s: Seq<u8>, p: int) -> bool {
    le32(s, p) == ZIP_CENTRAL_DIR_SIGNATURE as int
}

/// The whole record at `p`, variable part included, fits.
pub open spec fn cd_rec_fits(s: Seq<u8>, p: int) -> bool {
    p + cd_rec_len(s, p) <= s.len()
}

/// The record decoded from position `p`.
pub open spec fn cd_entry_at(s: Seq<u8>, p: int) -> CdEntryS {
    CdEntryS {
        name_raw: s.subrange(p + 46, p + 46 + le16(s, p + 28)),
        flags: le16(s, p + 8) as u16,
        method: le16(s, p + 10) as u16,
        mtime: le16(s, p + 12) as u16,
        mdate: le16(s, p + 14) as u16,
        crc32: le32(s, p + 16) as u32,
        compressed_size: le32(s, p + 20) as u32,
        stored_size: le32(s, p + 24) as u32,
        external_attrs: le32(s, p + 38) as u32,
        lfh_offset: le32(s, p + 42) as u32,
    }
}

/// `n` records parse from `p` and consume the bytes exactly to the end.
pub open spec fn cd_ok_from(s: Seq<u8>, p: int, n: nat) -> bool
    decreases n,
{
    if n == 0 {
        p == s.len()
    } else {
        &&& cd_fixed_fits(s, p)
        &&& cd_sig_ok(s, p)
        &&& cd_rec_fits(s, p)
        &&& cd_ok_from(s, p + cd_rec_len(s, p), (n - 1) as nat)
    }
}

/// The records parsed from `p`, meaningful where `cd_ok_from` holds.
pub open spec fn cd_entries_from(s: Seq<u8>, p: int, n: nat) -> Seq<CdEntryS>
    decreases n,
{
    if n == 0 {
        Seq::empty()
    } else {
        seq![cd_entry_at(s, p)] + cd_entries_from(s, p + cd_rec_len(s, p), (n - 1) as nat)
    }
}

/// The first failure while parsing from `p` is a wrong signature.
pub open spec fn cd_bad_sig_from(s: Seq<u8>, p: int, n: nat) -> bool
    decreases n,
{
    if n == 0 {
        false
    } else if !cd_fixed_fits(s, p) {
        false
    } else if !cd_sig_ok(s, p) {
        true
    } else if !cd_rec_fits(s, p) {
        false
    } else {
        cd_bad_sig_from(s, p + cd_rec_len(s, p), (n - 1) as nat)
    }
}

/// The first failure while parsing from `p` is a record that crosses the
/// end of the directory.
pub open spec fn cd_trunc_from(s: Seq<u8>, p: int, n: nat) -> bool
    decreases n,
{
    if n == 0 {
        false
    } else if !cd_fixed_fits(s, p) {
        true
    } else if !cd_sig_ok(s, p) {
        false
    } else if !cd_rec_fits(s, p) {
        true
    } else {
        cd_trunc_from(s, p + cd_rec_len(s, p), (n - 1) as nat)
    }
}

/// A field whose local-file-header copy must agree with the central
/// directory.
#[derive(Clone, Copy, Debug, PartialEq, Eq, Structural)]
pub enum MismatchField {
    Method,
    Crc,
    CompressedSize,
    StoredSize,
    LfhOffset,
}

/// Outcome of cross-checking a local file header against its
/// central-directory record.
#[derive(Clone, Copy, Debug, PartialEq, Eq, Structural)]
pub enum LfhError {
    /// The 30-byte fixed header crosses the end of the archive.
    Truncated,
    /// The local-file-header signature is wrong.
    BadSignature,
    /// A checked field disagrees with the central directory.
    Mismatch(MismatchField),
}

/// The fixed local file header of `e` lies within the archive.
pub open spec fn lfh_fits(s: Seq<u8>, e: CdEntryS) -> bool {
    e.lfh_offset + 30 <= s.len()
}

/// The local file header of `e` carries the right signature.
pub open spec fn lfh_sig_ok(s: Seq<u8>, e: CdEntryS) -> bool {
    le32(s, e.lfh_offset as int) == ZIP_LOCAL_HEADER_SIGNATURE as int
}

/// The local header's bit-3 flag: sizes and CRC were written after the
/// data, so zeros in the local header are not a mismatch.
pub open spec fn lfh_bit3(s: Seq<u8>, e: CdEntryS) -> bool {
    le16(s, e.lfh_offset + 6) as u16 & 8 != 0
}

/// A local-header field agrees with the central directory: equal, or
/// zero under the bit-3 convention.
pub open spec fn lfh_agrees(cd_val: int, lfh_val: int, bit3: bool) -> bool {
    lfh_val == cd_val || (bit3 && lfh_val == 0)
}

/// The method fields agree (always checked exactly).
pub open spec fn lfh_method_ok(s: Seq<u8>, e: CdEntryS) -> bool {
    le16(s, e.lfh_offset + 8) == e.method as int
}

/// The CRC fields agree.
pub open spec fn lfh_crc_ok(s: Seq<u8>, e: CdEntryS) -> bool {
    lfh_agrees(e.crc32 as int, le32(s, e.lfh_offset + 14), lfh_bit3(s, e))
}

/// The compressed-size fields agree.
pub open spec fn lfh_comp_ok(s: Seq<u8>, e: CdEntryS) -> bool {
    lfh_agrees(e.compressed_size as int, le32(s, e.lfh_offset + 18), lfh_bit3(s, e))
}

/// The stored-size fields agree.
pub open spec fn lfh_stored_ok(s: Seq<u8>, e: CdEntryS) -> bool {
    lfh_agrees(e.stored_size as int, le32(s, e.lfh_offset + 22), lfh_bit3(s, e))
}

/// Where the member's compressed bytes begin: after the fixed header and
/// the local name and extra fields.
pub open spec fn lfh_data_start(s: Seq<u8>, e: CdEntryS) -> int {
    e.lfh_offset + 30 + le16(s, e.lfh_offset + 26) + le16(s, e.lfh_offset + 28)
}

/// Reads the local file header of `entry` and cross-checks it against
/// the central-directory record, yielding the offset at which the
/// member's compressed bytes begin.
pub fn check_local_header(data: &[u8], entry: &CdEntry) -> (r: Result<u64, LfhError>)
    ensures
        !lfh_fits(data@, entry@) ==> r == Err::<u64, LfhError>(LfhError::Truncated),
        lfh_fits(data@, entry@) && !lfh_sig_ok(data@, entry@) ==> r == Err::<u64, LfhError>(
            LfhError::BadSignature,
        ),
        lfh_fits(data@, entry@) && lfh_sig_ok(data@, entry@) && !lfh_method_ok(data@, entry@)
            ==> r == Err::<u64, LfhError>(LfhError::Mismatch(MismatchField::Method)),
        lfh_fits(data@, entry@) && lfh_sig_ok(data@, entry@) && lfh_method_ok(data@, entry@)
            && !lfh_crc_ok(data@, entry@) ==> r == Err::<u64, LfhError>(
            LfhError::Mismatch(MismatchField::Crc),
        ),
        lfh_fits(data@, entry@) && lfh_sig_ok(data@, entry@) && lfh_method_ok(data@, entry@)
            && lfh_crc_ok(data@, entry@) && !lfh_comp_ok(data@, entry@) ==> r == Err::<
            u64,
            LfhError,
        >(LfhError::Mismatch(MismatchField::CompressedSize)),
        lfh_fits(data@, entry@) && lfh_sig_ok(data@, entry@) && lfh_method_ok(data@, entry@)
            && lfh_crc_ok(data@, entry@) && lfh_comp_ok(data@, entry@) && !lfh_stored_ok(
            data@,
            entry@,
        ) ==> r == Err::<u64, LfhError>(LfhError::Mismatch(MismatchField::StoredSize)),
        lfh_fits(data@, entry@) && lfh_sig_ok(data@, entry@) && lfh_method_ok(data@, entry@)
            && lfh_crc_ok(data@, entry@) && lfh_comp_ok(data@, entry@) && lfh_stored_ok(
            data@,
            entry@,
        ) ==> (r matches Ok(ds) && ds as int == lfh_data_start(data@, entry@)),
{
    let q = entry.lfh_offset as usize;
    if data.len() < 30 || q > data.len() - 30 {
        return Err(LfhError::Truncated);
    }
    if read_u32_at(data, q) != ZIP_LOCAL_HEADER_SIGNATURE {
        return Err(LfhError::BadSignature);
    }
    let bit3 = read_u16_at(data, q + 6) & 8 != 0;
    if read_u16_at(data, q + 8) != entry.method {
        return Err(LfhError::Mismatch(MismatchField::Method));
    }
    let lfh_crc = read_u32_at(data, q + 14);
    if !(lfh_crc == entry.crc32 || (bit3 && lfh_crc == 0)) {
        return Err(LfhError::Mismatch(MismatchField::Crc));
    }
    let lfh_comp = read_u32_at(data, q + 18);
    if !(lfh_comp == entry.compressed_size || (bit3 && lfh_comp == 0)) {
        return Err(LfhError::Mismatch(MismatchField::CompressedSize));
    }
    let lfh_stored = read_u32_at(data, q + 22);
    if !(lfh_stored == entry.stored_size || (bit3 && lfh_stored == 0)) {
        return Err(LfhError::Mismatch(MismatchField::StoredSize));
    }
    let name_len = read_u16_at(data, q + 26) as u64;
    let extra_len = read_u16_at(data, q + 28) as u64;
    Ok(entry.lfh_offset as u64 + 30 + name_len + extra_len)
}

/// Walks the central directory sequentially, decoding exactly
/// `total_entries` records; the count of records parsed and the bytes
/// consumed must both match the declaration.
pub fn parse_central_directory(cd: &[u8], total_entries: u16) -> (r: Result<
    Vec<CdEntry>,
    ArchiveError,
>)
    ensures
        (r matches Ok(v) ==> {
            &&& cd_ok_from(cd@, 0, total_entries as nat)
            &&& entry_views(v@) == cd_entries_from(cd@, 0, total_entries as nat)
            &&& v@.len() == total_entries as int
        }),
        r is Err ==> !cd_ok_from(cd@, 0, total_entries as nat),
        r is Err ==> r matches Err(ArchiveError::ArchiveMalformed { .. }),
        (r matches Err(ArchiveError::ArchiveMalformed { reason }) ==> {
            &&& (cd_bad_sig_from(cd@, 0, total_entries as nat) ==> reason@
                == "CD signature wrong"@)
            &&& (cd_trunc_from(cd@, 0, total_entries as nat) ==> reason@
                == "CD entry truncated"@)
            &&& (!cd_bad_sig_from(cd@, 0, total_entries as nat) && !cd_trunc_from(
                cd@,
                0,
                total_entries as nat,
            ) ==> reason@ == "CD size mismatch"@)
        }),
{
    let ghost s = cd@;
    let ghost n_total = total_entries as nat;
    let n = total_entries as usize;
    let len = cd.len();
    let mut out: Vec<CdEntry> = Vec::new();
    let mut pos: usize = 0;
    let mut i: usize = 0;
    while i < n
        invariant
            s == cd@,
            n_total == total_entries as nat,
            n == total_entries as usize,
            len == s.len(),
            0 <= i <= n,
            pos <= len,
            out@.len() == i,
            cd_ok_from(s, 0, n_total) == cd_ok_from(s, pos as int, (n - i) as nat),
            cd_bad_sig_from(s, 0, n_total) == cd_bad_sig_from(s, pos as int, (n - i) as nat),
            cd_trunc_from(s, 0, n_total) == cd_trunc_from(s, pos as int, (n - i) as nat),
            cd_ok_from(s, pos as int, (n - i) as nat) ==> cd_entries_from(s, 0, n_total)
                == entry_views(out@) + cd_entries_from(s, pos as int, (n - i) as nat),
        decreases n - i,
    {
        if len - pos < 46 {
            assert(cd_trunc_from(s, pos as int, (n - i) as nat));
            return Err(ArchiveError::ArchiveMalformed { reason: "CD entry truncated".to_owned() });
        }
        let sig = read_u32_at(cd, pos);
        if sig != ZIP_CENTRAL_DIR_SIGNATURE {
            assert(cd_bad_sig_from(s, pos as int, (n - i) as nat));
            return Err(ArchiveError::ArchiveMalformed { reason: "CD signature wrong".to_owned() });
        }
        let name_len = read_u16_at(cd, pos + 28) as usize;
        let extra_len = read_u16_at(cd, pos + 30) as usize;
        let comment_len = read_u16_at(cd, pos + 32) as usize;
        let var_len = name_len + extra_len + comment_len;
        if len - pos - 46 < var_len {
            assert(cd_trunc_from(s, pos as int, (n - i) as nat));
            return Err(ArchiveError::ArchiveMalformed { reason: "CD entry truncated".to_owned() });
        }
        let entry = CdEntry {
            name_raw: slice_to_vec(slice_subrange(cd, pos + 46, pos + 46 + name_len)),
            flags: read_u16_at(cd, pos + 8),
            method: read_u16_at(cd, pos + 10),
            mtime: read_u16_at(cd, pos + 12),
            mdate: read_u16_at(cd, pos + 14),
            crc32: read_u32_at(cd, pos + 16),
            compressed_size: read_u32_at(cd, pos + 20),
            stored_size: read_u32_at(cd, pos + 24),
            external_attrs: read_u32_at(cd, pos + 38),
            lfh_offset: read_u32_at(cd, pos + 42),
        };
        let ghost old_out = out@;
        let ghost old_pos = pos as int;
        let ghost rest = (n - i) as nat;
        proof {
            assert(entry@ =~= cd_entry_at(s, old_pos));
            assert(cd_ok_from(s, old_pos, rest) == cd_ok_from(
                s,
                old_pos + cd_rec_len(s, old_pos),
                (rest - 1) as nat,
            ));
        }
        out.push(entry);
        pos = pos + 46 + var_len;
        i = i + 1;
        proof {
            assert(entry_views(out@) =~= entry_views(old_out) + seq![cd_entry_at(s, old_pos)]);
            if cd_ok_from(s, pos as int, (n - i) as nat) {
                assert(cd_entries_from(s, old_pos, rest) == seq![cd_entry_at(s, old_pos)]
                    + cd_entries_from(s, pos as int, (n - i) as nat));
                assert(entry_views(old_out) + cd_entries_from(s, old_pos, rest) =~= entry_views(
                    out@,
                ) + cd_entries_from(s, pos as int, (n - i) as nat));
            }
        }
    }
    if pos == len {
        proof {
            assert(cd_ok_from(s, pos as int, 0));
            assert(cd_entries_from(s, pos as int, 0) =~= Seq::<CdEntryS>::empty());
            assert(entry_views(out@) + cd_entries_from(s, pos as int, 0) =~= entry_views(out@));
        }
        Ok(out)
    } else {
        assert(!cd_ok_from(s, pos as int, 0));
        Err(ArchiveError::ArchiveMalformed { reason: "CD size mismatch".to_owned() })
    }
}

} // verus!
