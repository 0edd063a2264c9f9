//! One archive member carried with its header and compressed bytes,
//! and the integrity pass over it.
use vstd::prelude::*;
use vstd::string::StrSliceExecFns;
use crate::buffer::pool::Buffer;
use crate::buffer::pool::buf_bytes;
use crate::codec::crc32;
use crate::codec::crc32_of;
use crate::codec::inflate;
use crate::codec::inflate_of;
use super::error::ZipError;

verus! {

/// The fields of a member's local file header.
#[derive(Debug)]
pub struct LocalFileHeader {
    pub version_needed: u16,
    pub flags: u16,
    pub compression_method: u16,
    pub last_mod_time: u16,
    pub last_mod_date: u16,
    pub crc32: u32,
    pub compressed_size: u64,
    pub uncompressed_size: u64,
    pub file_name: String,
    pub extra_field: Vec<u8>,
}

/// The trailing data descriptor, where a member carries one.
#[derive(Debug)]
pub struct DataDescriptor {
    pub crc32: u32,
    pub compressed_size: u64,
    pub uncompressed_size: u64,
}

/// One member: its header, optional descriptor, and compressed bytes.
#[derive(Debug)]
pub struct ZipEntry {
    pub header: LocalFileHeader,
    pub data_descriptor: Option<DataDescriptor>,
    pub file_data: Vec<u8>,
}

/// What was verified about a member.
#[derive(Debug)]
pub struct ProcessedEntry {
    pub name: String,
    pub original_size: u64,
    pub compressed_size: u64,
    pub crc32: u32,
    pub method: u16,
}

/// A name holds a NUL character somewhere; every other name, path
/// separators and all, is reported verbatim.
pub open spec fn chars_have_nul(s: Seq<char>) -> bool {
    exists|i: int| 0 <= i < s.len() && s[i] == '\u{0000}'
}

/// Scans a decoded name for NUL characters.
fn name_has_nul(s: &String) -> (r: bool)
    ensures
        r == chars_have_nul(s@),
{
    let n = s.as_str().unicode_len();
    let mut i: usize = 0;
    while i < n
        invariant
            n == s@.len(),
            0 <= i <= n,
            forall|j: int| 0 <= j < i ==> s@[j] != '\u{0000}',
        decreases n - i,
    {
        if s.as_str().get_char(i) == '\u{0000}' {
            return true;
        }
        i = i + 1;
    }
    false
}

/// The structural checks a member must pass before its bytes are
/// touched: a name free of NUL, a size the 32-bit format can hold, and
/// a supported method.
pub open spec fn entry_valid(e: &ZipEntry) -> bool {
    &&& !chars_have_nul(e.header.file_name@)
    &&& e.header.uncompressed_size <= 0xFFFFFFFF
    &&& (e.header.compression_method == 0 || e.header.compression_method == 8)
}

impl ZipEntry {
    /// Checks the structural rules, reporting the first breach: name,
    /// then size, then method.
    pub fn validate(&self) -> (r: Result<(), ZipError>)
        ensures
            r is Ok <==> entry_valid(self),
            chars_have_nul(self.header.file_name@) ==> r matches Err(ZipError::InvalidName),
            (!chars_have_nul(self.header.file_name@) && self.header.uncompressed_size
                > 0xFFFFFFFF) ==> r matches Err(ZipError::FileTooLarge),
            (!chars_have_nul(self.header.file_name@) && self.header.uncompressed_size
                <= 0xFFFFFFFF && self.header.compression_method != 0
                && self.header.compression_method != 8) ==> (r matches Err(
                ZipError::UnsupportedMethod(m),
            ) && m == self.header.compression_method),
    {
        if name_has_nul(&self.header.file_name) {
            return Err(ZipError::InvalidName);
        }
        if self.header.uncompressed_size > 0xFFFFFFFF {
            return Err(ZipError::FileTooLarge);
        }
        match self.header.compression_method {
            0 | 8 => Ok(()),
            m => Err(ZipError::UnsupportedMethod(m)),
        }
    }

    /// Verifies the member's bytes into the given buffer: a Store
    /// member is copied and checksummed, a Deflate member is decoded
    /// first; the decoded byte count and the checksum must both match
    /// the header's claims, and a Store member's two sizes must agree.
    /// Until a member passes its size checks, the buffer is untouched.
    pub fn process(&self, buffer: &mut Buffer) -> (r: Result<ProcessedEntry, ZipError>)
        requires
            !(*old(buffer) is Large),
        ensures
            chars_have_nul(self.header.file_name@) ==> (r matches Err(ZipError::InvalidName)
                && *final(buffer) == *old(buffer)),
            (!chars_have_nul(self.header.file_name@) && self.header.uncompressed_size
                > 0xFFFFFFFF) ==> (r matches Err(ZipError::FileTooLarge) && *final(buffer)
                == *old(buffer)),
            (!chars_have_nul(self.header.file_name@) && self.header.uncompressed_size
                <= 0xFFFFFFFF && self.header.compression_method != 0
                && self.header.compression_method != 8) ==> (r matches Err(
                ZipError::UnsupportedMethod(m),
            ) && m == self.header.compression_method && *final(buffer) == *old(buffer)),
            (entry_valid(self) && self.header.compression_method == 0) ==> {
                &&& (self.header.compressed_size != self.header.uncompressed_size ==> (
                r matches Err(ZipError::SizeMismatch) && *final(buffer) == *old(buffer)))
                &&& ((self.header.compressed_size == self.header.uncompressed_size
                    && self.file_data@.len() != self.header.uncompressed_size) ==> (r matches Err(
                    ZipError::SizeMismatch,
                ) && *final(buffer) == *old(buffer)))
                &&& ((self.header.compressed_size == self.header.uncompressed_size
                    && self.file_data@.len() == self.header.uncompressed_size) ==> {
                    &&& buf_bytes(*final(buffer)) == self.file_data@
                    &&& (r is Ok <==> crc32_of(self.file_data@) == self.header.crc32)
                    &&& (crc32_of(self.file_data@) != self.header.crc32 ==> r matches Err(
                        ZipError::Crc32Mismatch,
                    ))
                })
            },
            (entry_valid(self) && self.header.compression_method == 8) ==> {
                &&& (inflate_of(self.file_data@) is None ==> (r matches Err(ZipError::Io(_))
                    && *final(buffer) == *old(buffer)))
                &&& (inflate_of(self.file_data@) matches Some(out) ==> {
                    &&& (out.len() != self.header.uncompressed_size ==> (r matches Err(
                        ZipError::SizeMismatch,
                    ) && *final(buffer) == *old(buffer)))
                    &&& (out.len() == self.header.uncompressed_size ==> {
                        &&& buf_bytes(*final(buffer)) == out
                        &&& (r is Ok <==> crc32_of(out) == self.header.crc32)
                        &&& (crc32_of(out) != self.header.crc32 ==> r matches Err(
                            ZipError::Crc32Mismatch,
                        ))
                    })
                })
            },
            (r matches Ok(p) ==> {
                &&& p.name@ == self.header.file_name@
                &&& p.original_size == self.header.uncompressed_size
                &&& p.compressed_size == self.header.compressed_size
                &&& p.crc32 == self.header.crc32
                &&& p.method == self.header.compression_method
                &&& (self.header.compression_method == 0 ==> (self.header.compressed_size
                    == self.header.uncompressed_size && self.file_data@.len()
                    == self.header.uncompressed_size))
                &&& (self.header.compression_method == 8 ==> (inflate_of(self.file_data@) matches
                Some(out) && out.len() == self.header.uncompressed_size))
            }),
    {
        self.validate()?;
        if self.header.compression_method == 0 {
            if self.header.compressed_size != self.header.uncompressed_size {
                return Err(ZipError::SizeMismatch);
            }
            if self.file_data.len() as u64 != self.header.uncompressed_size {
                return Err(ZipError::SizeMismatch);
            }
            buffer.copy_from_slice(self.file_data.as_slice());
            let crc = crc32(self.file_data.as_slice());
            if crc != self.header.crc32 {
                return Err(ZipError::Crc32Mismatch);
            }
            Ok(
                ProcessedEntry {
                    name: self.header.file_name.clone(),
                    original_size: self.header.uncompressed_size,
                    compressed_size: self.header.compressed_size,
                    crc32: crc,
                    method: self.header.compression_method,
                },
            )
        } else {
            let decompressed = match inflate(self.file_data.as_slice()) {
                Ok(v) => v,
                Err(cause) => {
                    return Err(ZipError::Io(cause));
                },
            };
            if decompressed.len() as u64 != self.header.uncompressed_size {
                return Err(ZipError::SizeMismatch);
            }
            buffer.copy_from_slice(decompressed.as_slice());
            let crc = crc32(decompressed.as_slice());
            if crc != self.header.crc32 {
                return Err(ZipError::Crc32Mismatch);
            }
            Ok(
                ProcessedEntry {
                    name: self.header.file_name.clone(),
                    original_size: self.header.uncompressed_size,
                    compressed_size: self.header.compressed_size,
                    crc32: crc,
                    method: self.header.compression_method,
                },
            )
        }
    }
}

} // verus!
