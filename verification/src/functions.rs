use vstd::prelude::*;
use vstd::utf8::{decode_utf8, valid_utf8};
use crate::cdfh::{cdfh_record, CdfhView, CentralDirectoryFileHeader};
use crate::enums::{ArchiveStructure, Signature};
use crate::eocd::{eocd_record, EndOfCentralDirectory};
use crate::error::ZipError;
use crate::lfh::{lfh_record, LfhView, LocalFileHeader};
use crate::source::{le_u16, le_u32, read_u16_le, read_u32_le, ByteSource};

verus! {

#[verifier::external_type_specification]
#[verifier::external_body]
pub struct ExFromUtf8Error(std::string::FromUtf8Error);

/// `String::from_utf8` of the standard library. It is taken to accept
/// exactly the byte sequences that are valid UTF-8, and to return for them
/// the string whose characters they encode.
#[verifier::external_body]
fn string_from_utf8(bytes: Vec<u8>) -> (text: Result<String, std::string::FromUtf8Error>)
    ensures
        text is Ok <==> valid_utf8(bytes@),
        text matches Ok(s) ==> s@ == decode_utf8(bytes@),
{
    String::from_utf8(bytes)
}

/// Whether the four bytes at `at` are the little-endian bytes of `sig`.
pub open spec fn sig_at(bytes: Seq<u8>, at: int, sig: u32) -> bool {
    0 <= at && at + 4 <= bytes.len() && le_u32(bytes, at) == sig
}

/// Whether `at` is the first offset, counted from the start, at which `sig`
/// stands.
pub open spec fn first_sig_at(bytes: Seq<u8>, at: int, sig: u32) -> bool {
    sig_at(bytes, at, sig) && forall|j: int| 0 <= j < at ==> !sig_at(bytes, j, sig)
}

/// The first offset at which `sig` stands in `bytes`, if it stands anywhere.
pub open spec fn sig_position(bytes: Seq<u8>, sig: u32) -> Option<int> {
    if exists|at: int| first_sig_at(bytes, at, sig) {
        Some(choose|at: int| first_sig_at(bytes, at, sig))
    } else {
        None
    }
}

/// A signature has at most one first offset, so an offset that is first is
/// the signature's position.
pub proof fn lemma_first_sig_is_position(bytes: Seq<u8>, at: int, sig: u32)
    requires
        first_sig_at(bytes, at, sig),
    ensures
        sig_position(bytes, sig) == Some(at),
{
    let chosen = choose|c: int| first_sig_at(bytes, c, sig);
    assert(first_sig_at(bytes, chosen, sig));
    if chosen < at {
        assert(!sig_at(bytes, chosen, sig));
    }
    if at < chosen {
        assert(!sig_at(bytes, at, sig));
    }
}

/// Locates `sig` in the source, scanning forward from offset 0 one byte at a
/// time. Returns the first offset at which the signature stands and leaves
/// the read position right after its four bytes. Fails with
/// `SignatureNotFound`, leaving the position where it was, exactly when the
/// signature stands nowhere.
pub fn find_sig_position(source: &mut ByteSource, sig: u32) -> (found: Result<u64, ZipError>)
    ensures
        final(source).data@ == old(source).data@,
        match sig_position(old(source).data@, sig) {
            Some(at) => found == Ok::<u64, ZipError>(at as u64) && final(source).pos == at + 4
                && first_sig_at(old(source).data@, at, sig),
            None => found == Err::<u64, ZipError>(ZipError::SignatureNotFound)
                && final(source).pos == old(source).pos
                && forall|j: int| !sig_at(old(source).data@, j, sig),
        },
{
    let len: usize = source.data.len();
    let mut at: usize = 0;
    while len >= 4 && at <= len - 4
        invariant
            len == source.data@.len(),
            forall|j: int| 0 <= j < at ==> !sig_at(source.data@, j, sig),
            source.data@ == old(source).data@,
            source.pos == old(source).pos,
        decreases len - at,
    {
        if read_u32_le(source.data.as_slice(), at) == sig {
            proof {
                lemma_first_sig_is_position(source.data@, at as int, sig);
            }
            source.pos = at as u64 + 4;
            return Ok(at as u64);
        }
        at = at + 1;
    }
    proof {
        assert forall|j: int| !sig_at(source.data@, j, sig) by {}
        assert(sig_position(source.data@, sig) is None);
    }
    Err(ZipError::SignatureNotFound)
}

/// The text that `len` bytes at `pos` encode: `IoFailure` where fewer than
/// `len` bytes are left, `InvalidTextEncoding` where the bytes are not valid
/// UTF-8.
pub open spec fn text_at(bytes: Seq<u8>, pos: int, len: int) -> Result<Seq<char>, ZipError> {
    if pos + len > bytes.len() {
        Err(ZipError::IoFailure)
    } else if !valid_utf8(bytes.subrange(pos, pos + len)) {
        Err(ZipError::InvalidTextEncoding)
    } else {
        Ok(decode_utf8(bytes.subrange(pos, pos + len)))
    }
}

/// Reads `len` bytes at the read position as UTF-8 text and moves past
/// them. On failure the position stays where it was.
pub fn read_string(file: &mut ByteSource, len: usize) -> (read: Result<String, ZipError>)
    ensures
        final(file).data@ == old(file).data@,
        match text_at(old(file).data@, old(file).pos as int, len as int) {
            Ok(text) => (read matches Ok(s) && s@ == text) && final(file).pos == old(file).pos
                + len,
            Err(e) => (read matches Err(got) && got == e) && final(file).pos == old(file).pos,
        },
{
    let start: u64 = file.position();
    let bytes: Vec<u8> = match file.read_exact(len) {
        Ok(bytes) => bytes,
        Err(e) => {
            return Err(e);
        },
    };
    match string_from_utf8(bytes) {
        Ok(s) => Ok(s),
        Err(_) => {
            file.seek_start(start);
            Err(ZipError::InvalidTextEncoding)
        },
    }
}

/// The trailer of an archive and the offset right after it: the record's 22
/// bytes stand at the first offset where its signature stands.
/// `SignatureNotFound` where the signature stands nowhere, `IoFailure` where
/// fewer than 22 bytes are left at the signature.
pub open spec fn eocd_of(bytes: Seq<u8>) -> Result<(EndOfCentralDirectory, int), ZipError> {
    match sig_position(bytes, Signature::EndOfCentralDirectory.magic()) {
        None => Err(ZipError::SignatureNotFound),
        Some(at) => if at + 22 > bytes.len() {
            Err(ZipError::IoFailure)
        } else {
            Ok((eocd_record(bytes.subrange(at, at + 22)), at + 22))
        },
    }
}

/// What reading the trailer does: it turns the source `before` into the
/// source `after` and returns `read`. The bytes stay; the outcome is the
/// trailer of those bytes; the position ends right after the trailer, or
/// stays on failure.
pub open spec fn reads_eocd(
    before: ByteSource,
    after: ByteSource,
    read: Result<EndOfCentralDirectory, ZipError>,
) -> bool {
    &&& after.data@ == before.data@
    &&& match eocd_of(before.data@) {
        Ok((record, end)) => read == Ok::<EndOfCentralDirectory, ZipError>(record) && after.pos
            == end,
        Err(e) => read == Err::<EndOfCentralDirectory, ZipError>(e) && after.pos == before.pos,
    }
}

/// Reading the trailer twice gives the same record, or the same error, both
/// times, wherever the read position stood before the first reading; and
/// the second reading leaves the source as the first left it.
pub proof fn lemma_read_eocd_twice(
    start: ByteSource,
    once: ByteSource,
    twice: ByteSource,
    first: Result<EndOfCentralDirectory, ZipError>,
    second: Result<EndOfCentralDirectory, ZipError>,
)
    requires
        reads_eocd(start, once, first),
        reads_eocd(once, twice, second),
    ensures
        second == first,
        twice.data@ == start.data@,
        twice.pos == once.pos,
{
}

/// Locates and decodes the trailer, and leaves the read position right
/// after it. The position at the call does not matter: the scan starts at
/// offset 0. On failure the position stays where it was.
pub fn read_eocd(file: &mut ByteSource) -> (read: Result<EndOfCentralDirectory, ZipError>)
    ensures
        reads_eocd(*old(file), *final(file), read),
{
    let start: u64 = file.position();
    let eocd = EndOfCentralDirectory::new();
    let eocd_start: u64 = match find_sig_position(file, eocd.sig) {
        Ok(at) => at,
        Err(e) => {
            return Err(e);
        },
    };
    file.seek_start(eocd_start);
    match file.read_exact(ArchiveStructure::EndOfCentralDirectory.constant_size()) {
        Ok(bytes) => EndOfCentralDirectory::decode(bytes.as_slice()),
        Err(e) => {
            file.seek_start(start);
            Err(e)
        },
    }
}

/// The central-directory file header that stands at `pos`, and the offset
/// right after its fixed prefix, name, extra field and comment. `IoFailure`
/// where the prefix or the name runs past the end, `InvalidTextEncoding`
/// where the name is not valid UTF-8. The extra field and the comment are
/// stepped over unread, so they may run past the end; `IoFailure` where the
/// offset after them does not fit in 64 bits.
pub open spec fn cdfh_at(bytes: Seq<u8>, pos: int) -> Result<(CdfhView, int), ZipError> {
    if pos + 46 > bytes.len() {
        Err(ZipError::IoFailure)
    } else {
        let fixed = bytes.subrange(pos, pos + 46);
        let end = pos + 46 + le_u16(fixed, 28) + le_u16(fixed, 30) + le_u16(fixed, 32);
        match text_at(bytes, pos + 46, le_u16(fixed, 28) as int) {
            Err(e) => Err(e),
            Ok(name) => if end > u64::MAX {
                Err(ZipError::IoFailure)
            } else {
                Ok((cdfh_record(fixed, name), end))
            },
        }
    }
}

/// Decodes the central-directory file header at the read position and moves
/// past all of its bytes. On failure the position stays where it was.
pub fn read_cdfh(file: &mut ByteSource) -> (read: Result<CentralDirectoryFileHeader, ZipError>)
    ensures
        final(file).data@ == old(file).data@,
        match cdfh_at(old(file).data@, old(file).pos as int) {
            Ok((record, end)) => (read matches Ok(header) && header@ == record)
                && final(file).pos == end,
            Err(e) => (read matches Err(got) && got == e) && final(file).pos == old(file).pos,
        },
{
    let start: u64 = file.position();
    let fixed: Vec<u8> = match file.read_exact(
        ArchiveStructure::CentralDirectoryFileHeader.constant_size(),
    ) {
        Ok(bytes) => bytes,
        Err(e) => {
            return Err(e);
        },
    };
    let file_name_len: u16 = read_u16_le(fixed.as_slice(), 28);
    let file_name: String = match read_string(file, file_name_len as usize) {
        Ok(name) => name,
        Err(e) => {
            file.seek_start(start);
            return Err(e);
        },
    };
    let cdfh = match CentralDirectoryFileHeader::decode(fixed.as_slice(), file_name) {
        Ok(header) => header,
        Err(e) => {
            file.seek_start(start);
            return Err(e);
        },
    };
    // The extra field and the comment are stepped over, not kept.
    let skipped: u64 = cdfh.extra_field_len as u64 + cdfh.comment_len as u64;
    if file.skip(skipped).is_err() {
        file.seek_start(start);
        return Err(ZipError::IoFailure);
    }
    Ok(cdfh)
}

/// The local file header that stands at `start`, and the offset right after
/// its fixed prefix, name and extra field, which is where the payload
/// starts. `IoFailure` where the prefix or the name runs past the end,
/// `InvalidTextEncoding` where the name is not valid UTF-8. The extra field
/// is stepped over unread, so it may run past the end; `IoFailure` where the
/// offset after it does not fit in 64 bits.
pub open spec fn lfh_at(bytes: Seq<u8>, start: int) -> Result<(LfhView, int), ZipError> {
    if start + 30 > bytes.len() {
        Err(ZipError::IoFailure)
    } else {
        let fixed = bytes.subrange(start, start + 30);
        let end = start + 30 + le_u16(fixed, 26) + le_u16(fixed, 28);
        match text_at(bytes, start + 30, le_u16(fixed, 26) as int) {
            Err(e) => Err(e),
            Ok(name) => if end > u64::MAX {
                Err(ZipError::IoFailure)
            } else {
                Ok((lfh_record(fixed, name), end))
            },
        }
    }
}

/// Decodes the local file header at offset `lfh_start` and leaves the read
/// position right after it, at the payload. On failure the position stays
/// where it was before the call.
pub fn read_lfh(file: &mut ByteSource, lfh_start: u32) -> (read: Result<LocalFileHeader, ZipError>)
    ensures
        final(file).data@ == old(file).data@,
        match lfh_at(old(file).data@, lfh_start as int) {
            Ok((record, end)) => (read matches Ok(header) && header@ == record)
                && final(file).pos == end,
            Err(e) => (read matches Err(got) && got == e) && final(file).pos == old(file).pos,
        },
{
    let before: u64 = file.position();
    file.seek_start(lfh_start as u64);
    let fixed: Vec<u8> = match file.read_exact(ArchiveStructure::LocalFileHeader.constant_size()) {
        Ok(bytes) => bytes,
        Err(e) => {
            file.seek_start(before);
            return Err(e);
        },
    };
    let file_name_len: u16 = read_u16_le(fixed.as_slice(), 26);
    let file_name: String = match read_string(file, file_name_len as usize) {
        Ok(name) => name,
        Err(e) => {
            file.seek_start(before);
            return Err(e);
        },
    };
    let lfh = match LocalFileHeader::decode(fixed.as_slice(), file_name) {
        Ok(header) => header,
        Err(e) => {
            file.seek_start(before);
            return Err(e);
        },
    };
    // The extra field is stepped over, not kept.
    if file.skip(lfh.extra_field_len as u64).is_err() {
        file.seek_start(before);
        return Err(ZipError::IoFailure);
    }
    Ok(lfh)
}

/// The raw payload of the entry that `cdfh` describes. The payload starts
/// after the local file header that stands at
/// `cdfh.local_file_header_start`: after its fixed prefix and after the name
/// and the extra field whose lengths that local header declares. Its length
/// is the compressed size that `cdfh` declares. The local header's errors
/// come first; `IoFailure` where the payload runs past the end.
pub open spec fn payload_of(bytes: Seq<u8>, cdfh: CdfhView) -> Result<Seq<u8>, ZipError> {
    match lfh_at(bytes, cdfh.local_file_header_start as int) {
        Err(e) => Err(e),
        Ok((lfh, _)) => {
            let data_start = cdfh.local_file_header_start + 30 + lfh.file_name_len
                + lfh.extra_field_len;
            let data_end = data_start + cdfh.compressed_size;
            if data_end > bytes.len() {
                Err(ZipError::IoFailure)
            } else {
                Ok(bytes.subrange(data_start, data_end))
            }
        },
    }
}

/// Reads the raw, still compressed payload of the entry that `cdfh`
/// describes. The read position is put back where it was before the call,
/// whether the payload was read or not, so that a walk that is under way can
/// go on.
pub fn read_lfh_raw_data(file: &mut ByteSource, cdfh: &CentralDirectoryFileHeader) -> (read: Result<
    Vec<u8>,
    ZipError,
>)
    ensures
        final(file).data@ == old(file).data@,
        final(file).pos == old(file).pos,
        match payload_of(old(file).data@, cdfh@) {
            Ok(payload) => read matches Ok(raw) && raw@ == payload,
            Err(e) => read matches Err(got) && got == e,
        },
{
    let before: u64 = file.position();
    let lfh = match read_lfh(file, cdfh.local_file_header_start) {
        Ok(header) => header,
        Err(e) => {
            return Err(e);
        },
    };
    let data_start: u64 = cdfh.local_file_header_start as u64
        + ArchiveStructure::LocalFileHeader.constant_size() as u64 + lfh.file_name_len as u64
        + lfh.extra_field_len as u64;
    let data_len: usize = cdfh.compressed_size as usize;
    file.seek_start(data_start);
    let read = file.read_exact(data_len);
    file.seek_start(before);
    read
}

} // verus!
