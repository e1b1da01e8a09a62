use vstd::prelude::*;

verus! {

/// Why reading an archive failed.
#[derive(Debug, Clone, Copy, PartialEq, Eq, Structural)]
pub enum ZipError {
    /// A read ran past the end of the archive, or a seek left the range of offsets.
    IoFailure,
    /// The scanner reached the end of the archive without meeting the signature.
    SignatureNotFound,
    /// The bytes of a text field are not valid UTF-8.
    InvalidTextEncoding,
    /// The compression method code is neither Store nor Deflate.
    UnsupportedCompressionMethod,
    /// The Deflate stream is malformed.
    DecompressionFailure,
}

impl ZipError {
    /// A short description of the failure.
    pub fn message(&self) -> (text: &'static str)
        ensures
            text@ == match *self {
                ZipError::IoFailure => "unexpected end of archive"@,
                ZipError::SignatureNotFound => "signature not found"@,
                ZipError::InvalidTextEncoding => "not valid UTF-8"@,
                ZipError::UnsupportedCompressionMethod => "unsupported compression method"@,
                ZipError::DecompressionFailure => "corrupt deflate stream"@,
            },
    {
        match *self {
            ZipError::IoFailure => "unexpected end of archive",
            ZipError::SignatureNotFound => "signature not found",
            ZipError::InvalidTextEncoding => "not valid UTF-8",
            ZipError::UnsupportedCompressionMethod => "unsupported compression method",
            ZipError::DecompressionFailure => "corrupt deflate stream",
        }
    }
}

} // verus!
