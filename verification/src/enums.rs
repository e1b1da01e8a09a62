use vstd::prelude::*;

verus! {

/// The three fixed-layout records of an archive.
#[derive(Debug, Clone, Copy, PartialEq, Eq, Structural)]
pub enum ArchiveStructure {
    CentralDirectoryFileHeader,
    EndOfCentralDirectory,
    LocalFileHeader,
}

impl ArchiveStructure {
    /// The number of bytes in the record's fixed prefix.
    pub open spec fn fixed_len(self) -> nat {
        match self {
            ArchiveStructure::CentralDirectoryFileHeader => 46,
            ArchiveStructure::EndOfCentralDirectory => 22,
            ArchiveStructure::LocalFileHeader => 30,
        }
    }

    /// The size of the record's fixed prefix, in bytes.
    pub fn constant_size(&self) -> (size: usize)
        ensures
            size == self.fixed_len(),
    {
        match *self {
            ArchiveStructure::CentralDirectoryFileHeader => 46,
            ArchiveStructure::EndOfCentralDirectory => 22,
            ArchiveStructure::LocalFileHeader => 30,
        }
    }
}

/// The encodings of a payload that can be decoded.
#[derive(Debug, Clone, Copy, PartialEq, Eq, Structural)]
pub enum CompressionMethod {
    Store,
    Deflate,
}

/// The method that a numeric code stands for: 0 is Store, 8 is Deflate, and
/// no other code stands for a method.
pub open spec fn method_of_code(code: u16) -> Option<CompressionMethod> {
    if code == 0 {
        Some(CompressionMethod::Store)
    } else if code == 8 {
        Some(CompressionMethod::Deflate)
    } else {
        None
    }
}

impl CompressionMethod {
    /// Maps a compression-method code to its method, if it has one.
    pub fn from_code(code: u16) -> (method: Option<CompressionMethod>)
        ensures
            method == method_of_code(code),
    {
        match code {
            0 => Some(CompressionMethod::Store),
            8 => Some(CompressionMethod::Deflate),
            _ => None,
        }
    }
}

/// The magic values that open the three records.
#[derive(Debug, Clone, Copy, PartialEq, Eq, Structural)]
pub enum Signature {
    EndOfCentralDirectory,
    CentralDirectoryFileHeader,
    LocalFileHeader,
}

impl Signature {
    /// The magic value as a number; its bytes stand in the archive in
    /// little-endian order.
    pub open spec fn magic(self) -> u32 {
        match self {
            Signature::EndOfCentralDirectory => 0x06054b50,
            Signature::CentralDirectoryFileHeader => 0x02014b50,
            Signature::LocalFileHeader => 0x04034b50,
        }
    }

    /// The record's 32-bit magic value.
    pub fn sig_byte(&self) -> (sig: u32)
        ensures
            sig == self.magic(),
    {
        match *self {
            Signature::EndOfCentralDirectory => 0x06054b50,
            Signature::CentralDirectoryFileHeader => 0x02014b50,
            Signature::LocalFileHeader => 0x04034b50,
        }
    }
}

} // verus!
