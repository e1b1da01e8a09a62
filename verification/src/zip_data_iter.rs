use vstd::prelude::*;
use crate::cdfh::CdfhView;
use crate::enums::method_of_code;
use crate::error::ZipError;
use crate::functions::{cdfh_at, payload_of, read_cdfh, read_lfh_raw_data};
use crate::source::ByteSource;
use crate::zip_data::{ZipData, ZipDataView};

verus! {

/// The entry that a central-directory header stands for: its name, the
/// method that its code names and the raw payload that its local header
/// leads to. `UnsupportedCompressionMethod` where the code names no method;
/// otherwise the error of resolving the payload, if that fails.
pub open spec fn entry_of(bytes: Seq<u8>, cdfh: CdfhView) -> Result<ZipDataView, ZipError> {
    match method_of_code(cdfh.compression_method) {
        None => Err(ZipError::UnsupportedCompressionMethod),
        Some(method) => match payload_of(bytes, cdfh) {
            Err(e) => Err(e),
            Ok(raw) => Ok(
                ZipDataView { file_name: cdfh.file_name, compression_method: method, raw: raw },
            ),
        },
    }
}

/// A cursor over the entries of an archive, in the order of its central
/// directory. It holds the archive's source for as long as it lives, so one
/// walk is under way at a time.
pub struct ZipDataIter<'a> {
    pub file: &'a mut ByteSource,
}

impl<'a> ZipDataIter<'a> {
    /// Produces the entry whose header stands at the read position. Where no
    /// header decodes there the walk is over: nothing is handed out and the
    /// position stays. Where one decodes, the position moves to the next
    /// record, whatever becomes of the entry: fetching the payload leaves the
    /// position alone. An entry whose method is not supported or whose
    /// payload cannot be fetched is handed out as its error. The cursor goes
    /// on holding the same source.
    pub fn next(&mut self) -> (item: Option<Result<ZipData, ZipError>>)
        ensures
            final(self).file.data@ == old(self).file.data@,
            *final(final(self).file) == *final(old(self).file),
            match cdfh_at(old(self).file.data@, old(self).file.pos as int) {
                Err(_) => item is None && final(self).file.pos == old(self).file.pos,
                Ok((cdfh, next)) => final(self).file.pos == next && (match entry_of(
                    old(self).file.data@,
                    cdfh,
                ) {
                    Ok(entry) => item matches Some(Ok(data)) && data@ == entry,
                    Err(e) => item matches Some(Err(got)) && got == e,
                }),
            },
    {
        let cdfh = match read_cdfh(self.file) {
            Ok(cdfh) => cdfh,
            Err(_) => {
                return None;
            },
        };
        let compression_method = match cdfh.as_compression_method() {
            Some(method) => method,
            None => {
                return Some(Err(ZipError::UnsupportedCompressionMethod));
            },
        };
        let raw_data: Vec<u8> = match read_lfh_raw_data(self.file, &cdfh) {
            Ok(raw) => raw,
            Err(e) => {
                return Some(Err(e));
            },
        };
        Some(Ok(ZipData::new(cdfh.file_name, compression_method, raw_data)))
    }
}

} // verus!
