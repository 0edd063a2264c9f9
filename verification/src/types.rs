//! Shared wire-level constants and plain carrier types.
use vstd::prelude::*;

verus! {

pub const ZIP_LOCAL_HEADER_SIGNATURE: u32 = 0x04034b50;

pub const ZIP_CENTRAL_DIR_SIGNATURE: u32 = 0x02014b50;

/// Largest archive the 32-bit format carries.
pub const MAX_FILE_SIZE: u64 = 0xFFFFFFFF;

/// Method code for Store.
pub const STORED: u16 = 0;

/// Method code for Deflate.
pub const DEFLATED: u16 = 8;

/// A member's header fields, as a plain record.
#[derive(Debug, Clone)]
pub struct ZipHeader {
    pub compression_method: u16,
    pub compressed_size: u64,
    pub uncompressed_size: u64,
    pub file_name: String,
    pub is_encrypted: bool,
    pub crc32: u32,
}

impl ZipHeader {
    /// Builds a header record from its fields.
    pub fn new(
        compression_method: u16,
        compressed_size: u64,
        uncompressed_size: u64,
        file_name: String,
        is_encrypted: bool,
        crc32: u32,
    ) -> (h: ZipHeader)
        ensures
            h.compression_method == compression_method,
            h.compressed_size == compressed_size,
            h.uncompressed_size == uncompressed_size,
            h.file_name@ == file_name@,
            h.is_encrypted == is_encrypted,
            h.crc32 == crc32,
    {
        ZipHeader {
            compression_method,
            compressed_size,
            uncompressed_size,
            file_name,
            is_encrypted,
            crc32,
        }
    }
}

/// A coarse error partition used by the chunked pipeline.
#[derive(Debug, Clone)]
pub enum Error {
    /// An I/O failure, described.
    Io(String),
    /// A ZIP-structure failure, described.
    Zip(String),
    /// Any other processing failure, described.
    Processing(String),
}

/// A chunk of archive bytes with its position.
#[derive(Debug)]
pub struct Chunk {
    /// The bytes.
    pub data: Vec<u8>,
    /// Where they were read.
    pub offset: u64,
    /// Their count.
    pub size: usize,
}

impl Chunk {
    /// Wraps bytes read at `offset`; the recorded size is the byte
    /// count.
    pub fn new(data: Vec<u8>, offset: u64) -> (c: Chunk)
        ensures
            c.data@ == data@,
            c.offset == offset,
            c.size == data@.len(),
    {
        let size = data.len();
        Chunk { data, offset, size }
    }

    /// The chunk's bytes.
    pub fn data(&self) -> (r: &[u8])
        ensures
            r@ == self.data@,
    {
        self.data.as_slice()
    }

    /// Where the chunk was read.
    pub fn offset(&self) -> (r: u64)
        ensures
            r == self.offset,
    {
        self.offset
    }

    /// The chunk's byte count.
    pub fn size(&self) -> (r: usize)
        ensures
            r == self.size,
    {
        self.size
    }
}

} // verus!
