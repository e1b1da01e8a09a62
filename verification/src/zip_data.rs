use std::io::Write;
use vstd::prelude::*;
use crate::enums::CompressionMethod;
use crate::error::ZipError;
use crate::names::{is_directory_name, is_file_name, names_directory, names_file};

verus! {

#[verifier::external_type_specification]
#[verifier::external_body]
pub struct ExIoError(std::io::Error);

/// What inflating `raw` as one complete Deflate stream gives: the
/// decompressed bytes, or nothing where the decoder rejects the stream.
pub uninterp spec fn inflated(raw: Seq<u8>) -> Option<Seq<u8>>;

/// Runs `raw` through `flate2::write::DeflateDecoder`: a decoder made by
/// `new` over an empty buffer takes all of `raw` through `write_all` and
/// hands the buffer back from `finish`. The outcome is taken to depend on the
/// bytes of `raw` alone; nothing more is claimed of it.
#[verifier::external_body]
fn inflate(raw: &Vec<u8>) -> (outcome: Result<Vec<u8>, std::io::Error>)
    ensures
        match outcome {
            Ok(bytes) => inflated(raw@) == Some(bytes@),
            Err(_) => inflated(raw@) is None,
        },
{
    let mut decoder = flate2::write::DeflateDecoder::new(Vec::with_capacity(raw.len()));
    decoder.write_all(raw.as_slice())?;
    decoder.finish()
}

/// What a payload decodes to: Store hands the raw bytes on as they are;
/// Deflate gives what the inflater made of them, or `DecompressionFailure`
/// where it made nothing.
pub open spec fn decompressed(
    method: CompressionMethod,
    raw: Seq<u8>,
    inflated: Option<Seq<u8>>,
) -> Result<Seq<u8>, ZipError> {
    match method {
        CompressionMethod::Store => Ok(raw),
        CompressionMethod::Deflate => match inflated {
            Some(bytes) => Ok(bytes),
            None => Err(ZipError::DecompressionFailure),
        },
    }
}

/// A stored payload decodes to itself, whatever the inflater would make of
/// it.
pub proof fn lemma_store_round_trip(raw: Seq<u8>, inflated: Option<Seq<u8>>)
    ensures
        decompressed(CompressionMethod::Store, raw, inflated) == Ok::<Seq<u8>, ZipError>(raw),
{
}

/// Turns the inflater's outcome into the library's: the bytes as they came,
/// or `DecompressionFailure` for any error.
pub fn inflate_outcome(outcome: Result<Vec<u8>, std::io::Error>) -> (bytes: Result<
    Vec<u8>,
    ZipError,
>)
    ensures
        match outcome {
            Ok(inflated) => bytes matches Ok(b) && b@ == inflated@,
            Err(_) => bytes matches Err(e) && e == ZipError::DecompressionFailure,
        },
{
    match outcome {
        Ok(inflated) => Ok(inflated),
        Err(_) => Err(ZipError::DecompressionFailure),
    }
}

/// One entry of an archive, ready to be decoded: its name, its compression
/// method and its raw payload. In contracts the entry is spoken of by its
/// view; `file_name`, `compression_method` and `compressed_size` read the
/// view's parts.
pub struct ZipData {
    pub file_name: String,
    pub compression_method: CompressionMethod,
    raw: Vec<u8>,
}

/// What an entry holds, as plain values.
pub struct ZipDataView {
    pub file_name: Seq<char>,
    pub compression_method: CompressionMethod,
    pub raw: Seq<u8>,
}

impl View for ZipData {
    type V = ZipDataView;

    closed spec fn view(&self) -> ZipDataView {
        ZipDataView {
            file_name: self.file_name@,
            compression_method: self.compression_method,
            raw: self.raw@,
        }
    }
}

impl ZipData {
    /// An entry of the given name, method and raw payload.
    pub fn new(
        file_name: String,
        compression_method: CompressionMethod,
        raw_data: Vec<u8>,
    ) -> (entry: ZipData)
        ensures
            entry@ == (ZipDataView {
                file_name: file_name@,
                compression_method: compression_method,
                raw: raw_data@,
            }),
    {
        ZipData { file_name: file_name, compression_method: compression_method, raw: raw_data }
    }

    /// Whether the entry is a directory: its name is not empty and ends in `/`.
    pub fn is_directory(&self) -> (yes: bool)
        ensures
            yes == names_directory(self@.file_name),
    {
        is_directory_name(self.file_name.as_str())
    }

    /// Whether the entry is a file: its name is not empty and does not end in `/`.
    pub fn is_file(&self) -> (yes: bool)
        ensures
            yes == names_file(self@.file_name),
    {
        is_file_name(self.file_name.as_str())
    }

    /// The entry's path: its name, taken as it stands.
    pub fn as_path(&self) -> (path: &str)
        ensures
            path@ == self@.file_name,
    {
        self.file_name.as_str()
    }

    /// The entry's name.
    pub fn file_name(&self) -> (name: &str)
        ensures
            name@ == self@.file_name,
    {
        self.file_name.as_str()
    }

    /// The entry's compression method.
    pub fn compression_method(&self) -> (method: CompressionMethod)
        ensures
            method == self@.compression_method,
    {
        self.compression_method
    }

    /// The length of the raw payload, in bytes.
    pub fn compressed_size(&self) -> (size: usize)
        ensures
            size == self@.raw.len(),
    {
        self.raw.len()
    }

    /// Decodes the payload by the entry's method. Store returns the raw
    /// bytes unchanged. Deflate returns what the inflater makes of them, and
    /// fails with `DecompressionFailure` exactly when it rejects them.
    pub fn into_decompressed_bytes(self) -> (bytes: Result<Vec<u8>, ZipError>)
        ensures
            match decompressed(self@.compression_method, self@.raw, inflated(self@.raw)) {
                Ok(plain) => bytes matches Ok(b) && b@ == plain,
                Err(e) => bytes matches Err(got) && got == e,
            },
    {
        match self.compression_method {
            CompressionMethod::Store => Ok(self.raw),
            CompressionMethod::Deflate => inflate_outcome(inflate(&self.raw)),
        }
    }

    /// The raw payload, as it stands in the archive.
    pub fn into_compressed_bytes(self) -> (bytes: Vec<u8>)
        ensures
            bytes@ == self@.raw,
    {
        self.raw
    }
}

} // verus!
