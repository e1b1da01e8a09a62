use vstd::prelude::*;
use crate::cdfh::{CdfhView, CentralDirectoryFileHeader};
use crate::central_directory_iter::{bytes_left, directory_from, CentralDirectoryIter};
use crate::eocd::EndOfCentralDirectory;
use crate::error::ZipError;
use crate::extract::{
    actions_view, directory_files, extract_action, header_extracts, lemma_actions_view_push,
    lemma_extraction_writes_the_files, lemma_extraction_writes_the_paths,
    lemma_plan_covers_directory, lemma_plan_succeeds, non_directory_names, plan_from,
    written_files, written_paths, ExtractAction, Extraction, PlanView,
};
use crate::functions::{
    eocd_of, lfh_at, payload_of, read_cdfh, read_eocd, read_lfh, read_lfh_raw_data, reads_eocd,
};
use crate::info::{
    lemma_join_regroup, lemma_listing_step, lemma_records_view_push, listing_close, listing_from,
    records_view, ArchiveInfo, InfoRecord, InfoView, ListingView,
};
use crate::lfh::LocalFileHeader;
use crate::source::ByteSource;
use crate::zip_data_iter::ZipDataIter;

verus! {

/// The offset at which the central directory starts, as the trailer gives
/// it; the trailer's error where it cannot be read.
pub open spec fn cd_start_of(bytes: Seq<u8>) -> Result<int, ZipError> {
    match eocd_of(bytes) {
        Ok((eocd, _)) => Ok(eocd.cd_start_offset as int),
        Err(e) => Err(e),
    }
}

/// The plan of extracting a whole archive whose read position is `pos`:
/// the walk starts where the trailer says the central directory starts.
/// Where the trailer cannot be read the plan is empty, ends with the
/// trailer's error, and the position stays.
pub open spec fn extraction_of(bytes: Seq<u8>, pos: int) -> PlanView {
    match cd_start_of(bytes) {
        Ok(start) => plan_from(bytes, start),
        Err(e) => PlanView { actions: seq![], failure: Some(e), end: pos },
    }
}

/// The central directory of an archive: the headers of a walk from where
/// the trailer says the directory starts; none where the trailer cannot be
/// read.
pub open spec fn directory_of(bytes: Seq<u8>) -> Seq<CdfhView> {
    match cd_start_of(bytes) {
        Ok(start) => directory_from(bytes, start),
        Err(_) => Seq::empty(),
    }
}

/// Extracting an archive ends without an error exactly when its trailer can
/// be read and the entry of every header of its directory resolves and
/// decodes.
pub proof fn lemma_extraction_succeeds(bytes: Seq<u8>, pos: int)
    ensures
        extraction_of(bytes, pos).failure is None <==> cd_start_of(bytes) is Ok && forall|i: int|
            0 <= i < directory_of(bytes).len() ==> header_extracts(
                bytes,
                #[trigger] directory_of(bytes)[i],
            ),
{
    match cd_start_of(bytes) {
        Ok(start) => {
            if plan_from(bytes, start).failure is None {
                lemma_plan_covers_directory(bytes, start);
            }
            if forall|i: int|
                0 <= i < directory_of(bytes).len() ==> header_extracts(
                    bytes,
                    #[trigger] directory_of(bytes)[i],
                ) {
                assert forall|i: int|
                    0 <= i < directory_from(bytes, start).len() implies header_extracts(
                    bytes,
                    #[trigger] directory_from(bytes, start)[i],
                ) by {
                    assert(directory_of(bytes)[i] == directory_from(bytes, start)[i]);
                }
                lemma_plan_succeeds(bytes, start);
            }
        },
        Err(_) => {},
    }
}

/// Extracting an archive without an error writes exactly the files of its
/// directory: the files written, each a path with its content, are the file
/// entries of the directory, each a name with the entry's decoded payload.
/// Where every entry has a name, the paths written are the names of the
/// entries that are no directories.
pub proof fn lemma_extraction_writes_the_directory(bytes: Seq<u8>, pos: int)
    requires
        extraction_of(bytes, pos).failure is None,
    ensures
        written_files(extraction_of(bytes, pos).actions) == directory_files(
            bytes,
            directory_of(bytes),
        ),
        (forall|i: int|
            0 <= i < directory_of(bytes).len() ==> (#[trigger] directory_of(
                bytes,
            )[i]).file_name.len() > 0) ==> written_paths(extraction_of(bytes, pos).actions)
            == non_directory_names(directory_of(bytes)),
{
    let start = cd_start_of(bytes)->Ok_0;
    lemma_extraction_writes_the_files(bytes, start);
    if forall|i: int|
        0 <= i < directory_of(bytes).len() ==> (#[trigger] directory_of(bytes)[i]).file_name.len()
            > 0 {
        assert forall|i: int|
            0 <= i < directory_from(bytes, start).len() implies (#[trigger] directory_from(
            bytes,
            start,
        )[i]).file_name.len() > 0 by {
            assert(directory_of(bytes)[i] == directory_from(bytes, start)[i]);
        }
        lemma_extraction_writes_the_paths(bytes, start);
    }
}

/// The listing of a whole archive whose read position is `pos`: the walk
/// starts where the trailer says the central directory starts. Where the
/// trailer cannot be read the listing is empty, ends with the trailer's
/// error, and the position stays.
pub open spec fn info_of(bytes: Seq<u8>, pos: int) -> ListingView {
    match cd_start_of(bytes) {
        Ok(start) => listing_from(bytes, start),
        Err(e) => ListingView { records: seq![], failure: Some(e), end: pos },
    }
}

/// An archive held in memory, with the one read position that every
/// operation on it shares.
pub struct Archive {
    file: ByteSource,
}

impl Archive {
    /// The archive's bytes and read position.
    pub closed spec fn source(&self) -> ByteSource {
        self.file
    }

    /// An archive over `data`, positioned at its first byte.
    pub fn new(data: Vec<u8>) -> (archive: Archive)
        ensures
            archive.source().data@ == data@,
            archive.source().pos == 0,
    {
        Archive { file: ByteSource::new(data) }
    }

    /// Locates and decodes the trailer, and leaves the read position right
    /// after it. The scan starts at offset 0 on every call. On failure the
    /// position stays where it was.
    pub fn read_eocd(&mut self) -> (read: Result<EndOfCentralDirectory, ZipError>)
        ensures
            reads_eocd(old(self).source(), final(self).source(), read),
    {
        read_eocd(&mut self.file)
    }

    /// Decodes the local file header at offset `lfh_start` and leaves the
    /// read position right after it. On failure the position stays where it
    /// was.
    pub fn read_lfh(&mut self, lfh_start: u32) -> (read: Result<LocalFileHeader, ZipError>)
        ensures
            final(self).source().data@ == old(self).source().data@,
            match lfh_at(old(self).source().data@, lfh_start as int) {
                Ok((record, end)) => (read matches Ok(header) && header@ == record)
                    && final(self).source().pos == end,
                Err(e) => (read matches Err(got) && got == e)
                    && final(self).source().pos == old(self).source().pos,
            },
    {
        read_lfh(&mut self.file, lfh_start)
    }

    /// Reads the raw payload of the entry that `cdfh` describes. The read
    /// position is put back where it was before the call, whether the
    /// payload was read or not.
    pub fn read_lfh_raw_data(&mut self, cdfh: &CentralDirectoryFileHeader) -> (read: Result<
        Vec<u8>,
        ZipError,
    >)
        ensures
            final(self).source().data@ == old(self).source().data@,
            final(self).source().pos == old(self).source().pos,
            match payload_of(old(self).source().data@, cdfh@) {
                Ok(payload) => read matches Ok(raw) && raw@ == payload,
                Err(e) => read matches Err(got) && got == e,
            },
    {
        read_lfh_raw_data(&mut self.file, cdfh)
    }

    /// Reads the trailer and moves the read position to the start of the
    /// central directory. On failure the position stays where it was.
    pub fn seek_to_cd_start(&mut self) -> (moved: Result<(), ZipError>)
        ensures
            final(self).source().data@ == old(self).source().data@,
            match cd_start_of(old(self).source().data@) {
                Ok(start) => moved is Ok && final(self).source().pos == start,
                Err(e) => moved == Err::<(), ZipError>(e)
                    && final(self).source().pos == old(self).source().pos,
            },
    {
        let eocd = match self.read_eocd() {
            Ok(eocd) => eocd,
            Err(e) => {
                return Err(e);
            },
        };
        let cdfh_start: u32 = eocd.cd_start_offset;
        self.file.seek_start(cdfh_start as u64);
        Ok(())
    }

    /// A cursor over the archive's entries, placed at the start of the
    /// central directory. The archive is the cursor's for as long as the
    /// cursor lives, and is left as the cursor leaves it.
    pub fn zip_data_iter(&mut self) -> (iter: Result<ZipDataIter<'_>, ZipError>)
        ensures
            match cd_start_of(old(self).source().data@) {
                Ok(start) => (iter matches Ok(it) && it.file.data@ == old(self).source().data@
                    && it.file.pos == start && final(self).source() == *final(it.file)),
                Err(e) => (iter matches Err(got) && got == e)
                    && final(self).source().data@ == old(self).source().data@
                    && final(self).source().pos == old(self).source().pos,
            },
    {
        match self.seek_to_cd_start() {
            Ok(()) => {},
            Err(e) => {
                return Err(e);
            },
        }
        let iter = ZipDataIter { file: &mut self.file };
        Ok(iter)
    }

    /// A cursor over the archive's central-directory headers, placed at the
    /// start of the central directory. The archive is the cursor's for as
    /// long as the cursor lives, and is left as the cursor leaves it.
    pub fn cd_iter(&mut self) -> (iter: Result<CentralDirectoryIter<'_>, ZipError>)
        ensures
            match cd_start_of(old(self).source().data@) {
                Ok(start) => (iter matches Ok(it) && it.file.data@ == old(self).source().data@
                    && it.file.pos == start && final(self).source() == *final(it.file)),
                Err(e) => (iter matches Err(got) && got == e)
                    && final(self).source().data@ == old(self).source().data@
                    && final(self).source().pos == old(self).source().pos,
            },
    {
        match self.seek_to_cd_start() {
            Ok(()) => {},
            Err(e) => {
                return Err(e);
            },
        }
        let iter = CentralDirectoryIter { file: &mut self.file };
        Ok(iter)
    }

    /// Gathers the archive's listing: every central-directory header in
    /// the order of the directory, each followed by the local header that it
    /// points to, and the trailer last. An error ends the listing; the
    /// records gathered before it stay.
    pub fn print_info(&mut self) -> (info: ArchiveInfo)
        ensures
            final(self).source().data@ == old(self).source().data@,
            records_view(info.records@) == info_of(
                old(self).source().data@,
                old(self).source().pos as int,
            ).records,
            info.failure == info_of(
                old(self).source().data@,
                old(self).source().pos as int,
            ).failure,
            final(self).source().pos == info_of(
                old(self).source().data@,
                old(self).source().pos as int,
            ).end,
    {
        let mut records: Vec<InfoRecord> = Vec::new();
        match self.seek_to_cd_start() {
            Ok(()) => {},
            Err(e) => {
                return ArchiveInfo { records, failure: Some(e) };
            },
        }
        let ghost bytes = self.file.data@;
        let ghost whole = listing_from(bytes, self.file.pos as int);
        let mut failure: Option<ZipError> = None;
        loop
            invariant_except_break
                failure is None,
                whole.records == records_view(records@) + listing_from(
                    bytes,
                    self.file.pos as int,
                ).records,
                whole.failure == listing_from(bytes, self.file.pos as int).failure,
                whole.end == listing_from(bytes, self.file.pos as int).end,
            invariant
                self.file.data@ == bytes,
            ensures
                failure is Some ==> whole.records == records_view(records@) && whole.failure
                    == failure && whole.end == self.file.pos,
                failure is None ==> whole.records == records_view(records@) + listing_close(
                    bytes,
                    self.file.pos as int,
                ).records && whole.failure == listing_close(bytes, self.file.pos as int).failure
                    && whole.end == listing_close(bytes, self.file.pos as int).end,
            decreases bytes_left(bytes, self.file.pos as int),
        {
            let ghost done = records_view(records@);
            proof {
                lemma_listing_step(bytes, self.file.pos as int);
            }
            let cdfh = match read_cdfh(&mut self.file) {
                Ok(cdfh) => cdfh,
                Err(_) => {
                    break ;
                },
            };
            let current: u64 = self.file.position();
            let lfh_start: u32 = cdfh.local_file_header_start;
            let ghost central = InfoView::CentralDirectoryFileHeader(cdfh@);
            proof {
                lemma_records_view_push(records@, InfoRecord::CentralDirectoryFileHeader(cdfh));
            }
            records.push(InfoRecord::CentralDirectoryFileHeader(cdfh));
            let lfh = match read_lfh(&mut self.file, lfh_start) {
                Ok(lfh) => lfh,
                Err(e) => {
                    failure = Some(e);
                    break ;
                },
            };
            self.file.seek_start(current);
            proof {
                let local = InfoView::LocalFileHeader(lfh@);
                let rest = listing_from(bytes, current as int).records;
                lemma_records_view_push(records@, InfoRecord::LocalFileHeader(lfh));
                lemma_join_regroup(done, seq![central], seq![local] + rest);
                lemma_join_regroup(done + seq![central], seq![local], rest);
            }
            records.push(InfoRecord::LocalFileHeader(lfh));
        }
        if failure.is_some() {
            return ArchiveInfo { records, failure };
        }
        match read_eocd(&mut self.file) {
            Ok(eocd) => {
                proof {
                    lemma_records_view_push(records@, InfoRecord::EndOfCentralDirectory(eocd));
                }
                records.push(InfoRecord::EndOfCentralDirectory(eocd));
                ArchiveInfo { records, failure: None }
            },
            Err(e) => ArchiveInfo { records, failure: Some(e) },
        }
    }

    /// Plans the extraction of the whole archive. The entries are taken in
    /// the order of the central directory: a directory entry gives a
    /// directory to create, a file entry a file to write with its decoded
    /// payload. The first error ends the walk; the steps planned before it
    /// stay in the plan.
    pub fn unzip(&mut self) -> (plan: Extraction)
        ensures
            final(self).source().data@ == old(self).source().data@,
            actions_view(plan.actions@) == extraction_of(
                old(self).source().data@,
                old(self).source().pos as int,
            ).actions,
            plan.failure == extraction_of(
                old(self).source().data@,
                old(self).source().pos as int,
            ).failure,
            final(self).source().pos == extraction_of(
                old(self).source().data@,
                old(self).source().pos as int,
            ).end,
    {
        let mut actions: Vec<ExtractAction> = Vec::new();
        let mut failure: Option<ZipError> = None;
        let mut zip_data_iter = match self.zip_data_iter() {
            Ok(iter) => iter,
            Err(e) => {
                return Extraction { actions, failure: Some(e) };
            },
        };
        let ghost bytes = zip_data_iter.file.data@;
        let ghost start = zip_data_iter.file.pos as int;
        let ghost last = *final(zip_data_iter.file);
        loop
            invariant_except_break
                failure is None,
                plan_from(bytes, start).actions == actions_view(actions@) + plan_from(
                    bytes,
                    zip_data_iter.file.pos as int,
                ).actions,
                plan_from(bytes, start).failure == plan_from(
                    bytes,
                    zip_data_iter.file.pos as int,
                ).failure,
                plan_from(bytes, start).end == plan_from(bytes, zip_data_iter.file.pos as int).end,
            invariant
                zip_data_iter.file.data@ == bytes,
                *final(zip_data_iter.file) == last,
            ensures
                actions_view(actions@) == plan_from(bytes, start).actions,
                failure == plan_from(bytes, start).failure,
                zip_data_iter.file.pos == plan_from(bytes, start).end,
            decreases bytes_left(bytes, zip_data_iter.file.pos as int),
        {
            match zip_data_iter.next() {
                None => {
                    break ;
                },
                Some(Err(e)) => {
                    failure = Some(e);
                    break ;
                },
                Some(Ok(zip_data)) => match extract_action(zip_data) {
                    Err(e) => {
                        failure = Some(e);
                        break ;
                    },
                    Ok(Some(action)) => {
                        proof {
                            lemma_actions_view_push(actions@, action);
                            lemma_join_regroup(
                                actions_view(actions@),
                                seq![action@],
                                plan_from(bytes, zip_data_iter.file.pos as int).actions,
                            );
                        }
                        actions.push(action);
                    },
                    Ok(None) => {},
                },
            }
        }
        Extraction { actions, failure }
    }
}

} // verus!
