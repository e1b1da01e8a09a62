use vstd::prelude::*;
use crate::cdfh::{CdfhView, CentralDirectoryFileHeader};
use crate::central_directory_iter::bytes_left;
use crate::eocd::EndOfCentralDirectory;
use crate::error::ZipError;
use crate::functions::{cdfh_at, eocd_of, lfh_at};
use crate::lfh::{LfhView, LocalFileHeader};

verus! {

/// One record of an archive's listing.
#[derive(Debug)]
pub enum InfoRecord {
    CentralDirectoryFileHeader(CentralDirectoryFileHeader),
    LocalFileHeader(LocalFileHeader),
    EndOfCentralDirectory(EndOfCentralDirectory),
}

/// A record of a listing as plain values.
pub enum InfoView {
    CentralDirectoryFileHeader(CdfhView),
    LocalFileHeader(LfhView),
    EndOfCentralDirectory(EndOfCentralDirectory),
}

impl View for InfoRecord {
    type V = InfoView;

    open spec fn view(&self) -> InfoView {
        match *self {
            InfoRecord::CentralDirectoryFileHeader(cdfh) => InfoView::CentralDirectoryFileHeader(
                cdfh@,
            ),
            InfoRecord::LocalFileHeader(lfh) => InfoView::LocalFileHeader(lfh@),
            InfoRecord::EndOfCentralDirectory(eocd) => InfoView::EndOfCentralDirectory(eocd),
        }
    }
}

/// An archive's listing: its records in the order in which they are shown,
/// and the error that ended the listing, if one did. The records before an
/// error are still shown.
#[derive(Debug)]
pub struct ArchiveInfo {
    pub records: Vec<InfoRecord>,
    pub failure: Option<ZipError>,
}

/// The records of a listing, the error that ended it, if one did, and the
/// offset at which it left the read position.
pub struct ListingView {
    pub records: Seq<InfoView>,
    pub failure: Option<ZipError>,
    pub end: int,
}

/// The listing's close: the trailer, read anew, or its error.
pub open spec fn listing_close(bytes: Seq<u8>, pos: int) -> ListingView {
    match eocd_of(bytes) {
        Ok((eocd, end)) => ListingView {
            records: seq![InfoView::EndOfCentralDirectory(eocd)],
            failure: None,
            end: end,
        },
        Err(e) => ListingView { records: seq![], failure: Some(e), end: pos },
    }
}

/// The listing of a walk from `pos`. Each central header that decodes is
/// followed by the local header that it points to; a local header that does
/// not decode ends the listing with its error, after the central header. The
/// first position at which no central header decodes ends the walk, and the
/// trailer closes the listing.
pub open spec fn listing_from(bytes: Seq<u8>, pos: int) -> ListingView
    decreases bytes_left(bytes, pos),
{
    match cdfh_at(bytes, pos) {
        Err(_) => listing_close(bytes, pos),
        Ok((cdfh, next)) => match lfh_at(bytes, cdfh.local_file_header_start as int) {
            Err(e) => ListingView {
                records: seq![InfoView::CentralDirectoryFileHeader(cdfh)],
                failure: Some(e),
                end: next,
            },
            Ok((lfh, _)) => {
                let rest = listing_from(bytes, next);
                ListingView {
                    records: seq![
                        InfoView::CentralDirectoryFileHeader(cdfh),
                        InfoView::LocalFileHeader(lfh),
                    ] + rest.records,
                    failure: rest.failure,
                    end: rest.end,
                }
            },
        },
    }
}

/// The records as plain values, one for one.
pub open spec fn records_view(records: Seq<InfoRecord>) -> Seq<InfoView> {
    records.map_values(|r: InfoRecord| r@)
}

/// Adding a record to the records adds its plain value to theirs.
pub proof fn lemma_records_view_push(records: Seq<InfoRecord>, record: InfoRecord)
    ensures
        records_view(records.push(record)) == records_view(records) + seq![record@],
{
    assert(records_view(records.push(record)) =~= records_view(records) + seq![record@]);
}

/// One step of a listing: what the listing from `pos` is, by what stands
/// at `pos`.
pub proof fn lemma_listing_step(bytes: Seq<u8>, pos: int)
    ensures
        match cdfh_at(bytes, pos) {
            Err(_) => listing_from(bytes, pos) == listing_close(bytes, pos),
            Ok((cdfh, next)) => next >= pos + 46 && pos + 46 <= bytes.len() && (match lfh_at(
                bytes,
                cdfh.local_file_header_start as int,
            ) {
                Err(e) => listing_from(bytes, pos) == (ListingView {
                    records: seq![InfoView::CentralDirectoryFileHeader(cdfh)],
                    failure: Some(e),
                    end: next,
                }),
                Ok((lfh, _)) => listing_from(bytes, pos).records == seq![
                    InfoView::CentralDirectoryFileHeader(cdfh),
                ] + (seq![InfoView::LocalFileHeader(lfh)] + listing_from(bytes, next).records)
                    && listing_from(bytes, pos).failure == listing_from(bytes, next).failure
                    && listing_from(bytes, pos).end == listing_from(bytes, next).end,
            }),
        },
{
    match cdfh_at(bytes, pos) {
        Err(_) => {},
        Ok((cdfh, next)) => match lfh_at(bytes, cdfh.local_file_header_start as int) {
            Err(_) => {},
            Ok((lfh, _)) => {
                let rest = listing_from(bytes, next).records;
                assert(seq![
                    InfoView::CentralDirectoryFileHeader(cdfh),
                    InfoView::LocalFileHeader(lfh),
                ] + rest =~= seq![InfoView::CentralDirectoryFileHeader(cdfh)] + (seq![
                    InfoView::LocalFileHeader(lfh),
                ] + rest));
            },
        },
    }
}

/// Joining sequences does not depend on how the joins are grouped.
pub proof fn lemma_join_regroup<T>(done: Seq<T>, step: Seq<T>, rest: Seq<T>)
    ensures
        done + (step + rest) == (done + step) + rest,
{
    assert(done + (step + rest) =~= (done + step) + rest);
}

} // verus!
