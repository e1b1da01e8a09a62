use vstd::prelude::*;
use crate::cdfh::{CdfhView, CentralDirectoryFileHeader};
use crate::functions::{cdfh_at, read_cdfh};
use crate::source::ByteSource;

verus! {

/// How far the end of `bytes` is from `pos`; nothing where `pos` is past it.
pub open spec fn bytes_left(bytes: Seq<u8>, pos: int) -> nat {
    if pos <= bytes.len() {
        (bytes.len() - pos) as nat
    } else {
        0
    }
}

/// The headers that a walk from `pos` produces: one after the other for as
/// long as a header decodes at the position that the one before left, and
/// none from the first position at which none decodes.
pub open spec fn directory_from(bytes: Seq<u8>, pos: int) -> Seq<CdfhView>
    decreases bytes_left(bytes, pos),
{
    match cdfh_at(bytes, pos) {
        Ok((header, next)) => seq![header] + directory_from(bytes, next),
        Err(_) => seq![],
    }
}

/// The offset at which a walk from `pos` ends: the first position, going
/// from record to record, at which no header decodes.
pub open spec fn directory_end(bytes: Seq<u8>, pos: int) -> int
    decreases bytes_left(bytes, pos),
{
    match cdfh_at(bytes, pos) {
        Ok((_, next)) => directory_end(bytes, next),
        Err(_) => pos,
    }
}

/// The headers as plain values, one for one.
pub open spec fn headers_view(headers: Seq<CentralDirectoryFileHeader>) -> Seq<CdfhView> {
    headers.map_values(|h: CentralDirectoryFileHeader| h@)
}

/// The walk stops at the first position at which no header decodes: from
/// there it produces nothing, however many records the trailer announces
/// and whatever stands after that position.
pub proof fn lemma_walk_ends_at_first_failure(bytes: Seq<u8>, pos: int)
    requires
        cdfh_at(bytes, pos) is Err,
    ensures
        directory_from(bytes, pos) == Seq::<CdfhView>::empty(),
{
}

/// A cursor over the central directory. It holds the archive's source for
/// as long as it lives, so one walk is under way at a time.
pub struct CentralDirectoryIter<'a> {
    pub file: &'a mut ByteSource,
}

impl<'a> CentralDirectoryIter<'a> {
    /// Decodes the header at the read position. A header that decodes is
    /// handed out and the position moves to the next record. Any failure to
    /// decode ends the walk: nothing is handed out and the position stays.
    /// The cursor goes on holding the same source.
    pub fn next(&mut self) -> (item: Option<CentralDirectoryFileHeader>)
        ensures
            final(self).file.data@ == old(self).file.data@,
            *final(final(self).file) == *final(old(self).file),
            match cdfh_at(old(self).file.data@, old(self).file.pos as int) {
                Ok((record, end)) => (item matches Some(header) && header@ == record)
                    && final(self).file.pos == end,
                Err(_) => item is None && final(self).file.pos == old(self).file.pos,
            },
    {
        match read_cdfh(self.file) {
            Ok(cdfh) => Some(cdfh),
            Err(_) => None,
        }
    }

    /// Walks the rest of the directory and returns its headers in order.
    /// The walk ends at the first position at which no header decodes, and
    /// the read position is left there.
    pub fn collect(self) -> (headers: Vec<CentralDirectoryFileHeader>)
        ensures
            final(self.file).data@ == old(self.file).data@,
            headers_view(headers@) == directory_from(
                old(self.file).data@,
                old(self.file).pos as int,
            ),
            final(self.file).pos == directory_end(
                old(self.file).data@,
                old(self.file).pos as int,
            ),
    {
        let mut iter = self;
        let ghost bytes = iter.file.data@;
        let ghost whole = directory_from(bytes, iter.file.pos as int);
        let ghost end = directory_end(bytes, iter.file.pos as int);
        let ghost last = *final(iter.file);
        let mut headers: Vec<CentralDirectoryFileHeader> = Vec::new();
        loop
            invariant_except_break
                whole == headers_view(headers@) + directory_from(bytes, iter.file.pos as int),
            invariant
                iter.file.data@ == bytes,
                end == directory_end(bytes, iter.file.pos as int),
                *final(iter.file) == last,
            ensures
                whole == headers_view(headers@),
                iter.file.pos == end,
            decreases bytes_left(bytes, iter.file.pos as int),
        {
            let ghost done = headers_view(headers@);
            let ghost rest = directory_from(bytes, iter.file.pos as int);
            match iter.next() {
                Some(cdfh) => {
                    proof {
                        assert(headers_view(headers@.push(cdfh)) =~= done + seq![cdfh@]);
                        assert(done + (seq![cdfh@] + directory_from(bytes, iter.file.pos as int))
                            =~= (done + seq![cdfh@]) + directory_from(
                            bytes,
                            iter.file.pos as int,
                        ));
                    }
                    headers.push(cdfh);
                },
                None => {
                    assert(done + rest =~= done);
                    break ;
                },
            }
        }
        headers
    }
}

} // verus!
