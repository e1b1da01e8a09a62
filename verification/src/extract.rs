use vstd::prelude::*;
use crate::cdfh::CdfhView;
use crate::central_directory_iter::{bytes_left, directory_from};
use crate::enums::CompressionMethod;
use crate::error::ZipError;
use crate::functions::cdfh_at;
use crate::names::{names_directory, names_file};
use crate::zip_data::{decompressed, inflated, ZipData, ZipDataView};
use crate::zip_data_iter::entry_of;

verus! {

/// One thing to create on extraction.
#[derive(Debug, PartialEq, Eq)]
pub enum ExtractAction {
    /// Create the directory at `path`, with the directories above it.
    CreateDir { path: String },
    /// Create the file at `path` and write `bytes` to it.
    WriteFile { path: String, bytes: Vec<u8> },
}

/// An extraction step as plain values.
pub enum ActionView {
    CreateDir { path: Seq<char> },
    WriteFile { path: Seq<char>, bytes: Seq<u8> },
}

impl View for ExtractAction {
    type V = ActionView;

    open spec fn view(&self) -> ActionView {
        match *self {
            ExtractAction::CreateDir { path } => ActionView::CreateDir { path: path@ },
            ExtractAction::WriteFile { path, bytes } => ActionView::WriteFile {
                path: path@,
                bytes: bytes@,
            },
        }
    }
}

/// What extraction does with one entry, given what the inflater makes of
/// its payload. A directory entry is created as a directory, whatever its
/// payload holds. A file entry is written with its decoded payload: an empty
/// payload gives an empty file and is not decoded at all, any other is
/// decoded by the entry's method, and a payload that does not decode is the
/// entry's error. An entry without a name is passed over.
pub open spec fn action_for(entry: ZipDataView, inflated: Option<Seq<u8>>) -> Result<
    Option<ActionView>,
    ZipError,
> {
    if names_directory(entry.file_name) {
        Ok(Some(ActionView::CreateDir { path: entry.file_name }))
    } else if names_file(entry.file_name) {
        if entry.raw.len() == 0 {
            Ok(Some(ActionView::WriteFile { path: entry.file_name, bytes: Seq::empty() }))
        } else {
            match decompressed(entry.compression_method, entry.raw, inflated) {
                Ok(bytes) => Ok(Some(ActionView::WriteFile { path: entry.file_name, bytes })),
                Err(e) => Err(e),
            }
        }
    } else {
        Ok(None)
    }
}

/// Decides what extraction does with one entry.
pub fn extract_action(zip_data: ZipData) -> (action: Result<Option<ExtractAction>, ZipError>)
    ensures
        match action_for(zip_data@, inflated(zip_data@.raw)) {
            Ok(Some(step)) => action matches Ok(Some(a)) && a@ == step,
            Ok(None) => action matches Ok(None),
            Err(e) => action matches Err(got) && got == e,
        },
{
    if zip_data.is_directory() {
        Ok(Some(ExtractAction::CreateDir { path: zip_data.as_path().to_owned() }))
    } else if zip_data.is_file() {
        let path: String = zip_data.as_path().to_owned();
        if zip_data.compressed_size() != 0 {
            match zip_data.into_decompressed_bytes() {
                Ok(bytes) => Ok(Some(ExtractAction::WriteFile { path, bytes })),
                Err(e) => Err(e),
            }
        } else {
            Ok(Some(ExtractAction::WriteFile { path, bytes: Vec::new() }))
        }
    } else {
        Ok(None)
    }
}

/// A directory entry is never decoded: what extraction does with it is to
/// create the directory, whatever its payload holds, whatever its method is
/// and whatever the inflater would make of the payload.
pub proof fn lemma_directory_is_never_decoded(entry: ZipDataView, inflated: Option<Seq<u8>>)
    requires
        entry.file_name.len() > 0,
        entry.file_name.last() == '/',
    ensures
        names_directory(entry.file_name),
        !names_file(entry.file_name),
        action_for(entry, inflated) == Ok::<Option<ActionView>, ZipError>(
            Some(ActionView::CreateDir { path: entry.file_name }),
        ),
{
}

/// The steps of an extraction, in order, the error that ended it, if one
/// did, and the offset at which the walk stopped.
pub struct PlanView {
    pub actions: Seq<ActionView>,
    pub failure: Option<ZipError>,
    pub end: int,
}

/// The steps that one entry adds to a plan: its action, if it has one.
pub open spec fn steps_of(step: Option<ActionView>) -> Seq<ActionView> {
    match step {
        Some(action) => seq![action],
        None => seq![],
    }
}

/// The plan of an extraction that walks the central directory from `pos`.
/// Entries are taken in the order of their headers, for as long as a header
/// decodes. The first entry that cannot be resolved or decoded ends the
/// plan with its error; the steps before it stay.
pub open spec fn plan_from(bytes: Seq<u8>, pos: int) -> PlanView
    decreases bytes_left(bytes, pos),
{
    match cdfh_at(bytes, pos) {
        Err(_) => PlanView { actions: seq![], failure: None, end: pos },
        Ok((cdfh, next)) => match entry_of(bytes, cdfh) {
            Err(e) => PlanView { actions: seq![], failure: Some(e), end: next },
            Ok(entry) => match action_for(entry, inflated(entry.raw)) {
                Err(e) => PlanView { actions: seq![], failure: Some(e), end: next },
                Ok(step) => {
                    let rest = plan_from(bytes, next);
                    PlanView {
                        actions: steps_of(step) + rest.actions,
                        failure: rest.failure,
                        end: rest.end,
                    }
                },
            },
        },
    }
}

/// The steps that the entry of one header adds to a plan; none where the
/// entry cannot be resolved or decoded.
pub open spec fn header_steps(bytes: Seq<u8>, cdfh: CdfhView) -> Seq<ActionView> {
    match entry_of(bytes, cdfh) {
        Ok(entry) => match action_for(entry, inflated(entry.raw)) {
            Ok(step) => steps_of(step),
            Err(_) => seq![],
        },
        Err(_) => seq![],
    }
}

/// Whether the entry of a header resolves and decodes.
pub open spec fn header_extracts(bytes: Seq<u8>, cdfh: CdfhView) -> bool {
    match entry_of(bytes, cdfh) {
        Ok(entry) => action_for(entry, inflated(entry.raw)) is Ok,
        Err(_) => false,
    }
}

/// The steps of the entries of `headers`, in order.
pub open spec fn steps_of_headers(bytes: Seq<u8>, headers: Seq<CdfhView>) -> Seq<ActionView>
    decreases headers.len(),
{
    if headers.len() == 0 {
        seq![]
    } else {
        header_steps(bytes, headers[0]) + steps_of_headers(bytes, headers.drop_first())
    }
}

/// A plan that ends without an error covers the whole directory: every
/// header that the walk produces has an entry that resolves and decodes, the
/// plan holds the steps of these entries in the order of the headers and
/// nothing else, and it ends where the walk ends.
pub proof fn lemma_plan_covers_directory(bytes: Seq<u8>, pos: int)
    requires
        plan_from(bytes, pos).failure is None,
    ensures
        plan_from(bytes, pos).actions == steps_of_headers(bytes, directory_from(bytes, pos)),
        forall|i: int|
            0 <= i < directory_from(bytes, pos).len() ==> header_extracts(
                bytes,
                #[trigger] directory_from(bytes, pos)[i],
            ),
    decreases bytes_left(bytes, pos),
{
    match cdfh_at(bytes, pos) {
        Err(_) => {},
        Ok((cdfh, next)) => {
            let headers = directory_from(bytes, pos);
            lemma_plan_covers_directory(bytes, next);
            assert(headers[0] == cdfh);
            assert(headers.drop_first() =~= directory_from(bytes, next));
            assert forall|i: int| 0 <= i < headers.len() implies header_extracts(
                bytes,
                #[trigger] headers[i],
            ) by {
                if i > 0 {
                    assert(headers[i] == directory_from(bytes, next)[i - 1]);
                }
            }
        },
    }
}

/// A plan ends without an error wherever the entry of every header that
/// the walk produces resolves and decodes.
pub proof fn lemma_plan_succeeds(bytes: Seq<u8>, pos: int)
    requires
        forall|i: int|
            0 <= i < directory_from(bytes, pos).len() ==> header_extracts(
                bytes,
                #[trigger] directory_from(bytes, pos)[i],
            ),
    ensures
        plan_from(bytes, pos).failure is None,
    decreases bytes_left(bytes, pos),
{
    match cdfh_at(bytes, pos) {
        Err(_) => {},
        Ok((cdfh, next)) => {
            let headers = directory_from(bytes, pos);
            let rest = directory_from(bytes, next);
            assert(headers[0] == cdfh);
            assert(header_extracts(bytes, cdfh));
            assert forall|i: int| 0 <= i < rest.len() implies header_extracts(
                bytes,
                #[trigger] rest[i],
            ) by {
                assert(rest[i] == headers[i + 1]);
            }
            lemma_plan_succeeds(bytes, next);
        },
    }
}

/// What the entry of a header gives on extraction, where it resolves and
/// decodes: a file entry gives one file, at the path that is the entry's
/// name, holding the decoded payload; a directory entry gives one directory
/// at that path; an entry without a name gives nothing.
pub proof fn lemma_steps_of_an_entry(bytes: Seq<u8>, cdfh: CdfhView)
    requires
        header_extracts(bytes, cdfh),
    ensures
        names_directory(cdfh.file_name) ==> header_steps(bytes, cdfh) == seq![
            ActionView::CreateDir { path: cdfh.file_name },
        ],
        names_file(cdfh.file_name) ==> (entry_of(bytes, cdfh) matches Ok(entry) && header_steps(
            bytes,
            cdfh,
        ) == seq![
            ActionView::WriteFile {
                path: cdfh.file_name,
                bytes: if entry.raw.len() == 0 {
                    Seq::empty()
                } else {
                    decompressed(entry.compression_method, entry.raw, inflated(entry.raw))->Ok_0
                },
            },
        ]),
        cdfh.file_name.len() == 0 ==> header_steps(bytes, cdfh) == Seq::<ActionView>::empty(),
{
}

/// What the file of a file entry holds: nothing where the payload is empty,
/// else the payload decoded by the entry's method.
pub open spec fn file_content(bytes: Seq<u8>, cdfh: CdfhView) -> Seq<u8> {
    match entry_of(bytes, cdfh) {
        Ok(entry) => if entry.raw.len() == 0 {
            Seq::empty()
        } else {
            match decompressed(entry.compression_method, entry.raw, inflated(entry.raw)) {
                Ok(plain) => plain,
                Err(_) => Seq::empty(),
            }
        },
        Err(_) => Seq::empty(),
    }
}

/// Whether a plan holds the step of writing `content` to the file at `path`.
pub open spec fn writes(actions: Seq<ActionView>, path: Seq<char>, content: Seq<u8>) -> bool {
    actions.contains(ActionView::WriteFile { path: path, bytes: content })
}

/// The files that a plan writes: each path with what is written to it.
pub open spec fn written_files(actions: Seq<ActionView>) -> Set<(Seq<char>, Seq<u8>)> {
    Set::new(|file: (Seq<char>, Seq<u8>)| writes(actions, file.0, file.1))
}

/// The paths that a plan writes files to.
pub open spec fn written_paths(actions: Seq<ActionView>) -> Set<Seq<char>> {
    Set::new(|path: Seq<char>| exists|content: Seq<u8>| writes(actions, path, content))
}

/// The files of a directory: the name of each file entry with what its file
/// holds.
pub open spec fn directory_files(bytes: Seq<u8>, headers: Seq<CdfhView>) -> Set<
    (Seq<char>, Seq<u8>),
> {
    Set::new(
        |file: (Seq<char>, Seq<u8>)|
            exists|i: int|
                0 <= i < headers.len() && is_file_of(bytes, #[trigger] headers[i], file),
    )
}

/// Whether `file` is the name and the content of the file entry `cdfh`.
pub open spec fn is_file_of(bytes: Seq<u8>, cdfh: CdfhView, file: (Seq<char>, Seq<u8>)) -> bool {
    names_file(cdfh.file_name) && file.0 == cdfh.file_name && file.1 == file_content(bytes, cdfh)
}

/// The names of a directory's entries that are no directories.
pub open spec fn non_directory_names(headers: Seq<CdfhView>) -> Set<Seq<char>> {
    Set::new(
        |name: Seq<char>|
            exists|i: int|
                0 <= i < headers.len() && (#[trigger] headers[i]).file_name == name
                    && !names_directory(name),
    )
}

/// The entry of a header gives the step of writing a file exactly when it
/// is a file entry, and then the file is at the entry's name and holds the
/// entry's content.
pub proof fn lemma_write_step_of_an_entry(
    bytes: Seq<u8>,
    cdfh: CdfhView,
    file: (Seq<char>, Seq<u8>),
)
    requires
        header_extracts(bytes, cdfh),
    ensures
        header_steps(bytes, cdfh) == seq![ActionView::WriteFile { path: file.0, bytes: file.1 }]
            <==> is_file_of(bytes, cdfh, file),
{
    let write = ActionView::WriteFile { path: file.0, bytes: file.1 };
    let steps = header_steps(bytes, cdfh);
    assert(seq![write].len() == 1);
    assert(seq![write][0] == write);
    if names_file(cdfh.file_name) {
        let own = ActionView::WriteFile {
            path: cdfh.file_name,
            bytes: file_content(bytes, cdfh),
        };
        assert(steps == seq![own]);
        assert(seq![own][0] == own);
    } else if names_directory(cdfh.file_name) {
        let own = ActionView::CreateDir { path: cdfh.file_name };
        assert(steps == seq![own]);
        assert(seq![own][0] == own);
    } else {
        assert(steps.len() == 0);
    }
}

/// An action stands among the steps of a sequence of headers exactly when
/// it is the one step of one of them.
pub proof fn lemma_steps_come_from_headers(bytes: Seq<u8>, headers: Seq<CdfhView>, a: ActionView)
    ensures
        steps_of_headers(bytes, headers).contains(a) <==> exists|i: int|
            0 <= i < headers.len() && header_steps(bytes, #[trigger] headers[i]) == seq![a],
    decreases headers.len(),
{
    let steps = steps_of_headers(bytes, headers);
    if headers.len() > 0 {
        let first = header_steps(bytes, headers[0]);
        let tail = headers.drop_first();
        let rest = steps_of_headers(bytes, tail);
        lemma_steps_come_from_headers(bytes, tail, a);
        assert(first.len() <= 1);
        assert(steps == first + rest);
        if steps.contains(a) {
            let j = choose|j: int| 0 <= j < steps.len() && steps[j] == a;
            if j < first.len() {
                assert(first =~= seq![a]);
            } else {
                assert(rest[j - first.len()] == a);
                assert(rest.contains(a));
                let i = choose|i: int|
                    0 <= i < tail.len() && header_steps(bytes, #[trigger] tail[i]) == seq![a];
                assert(tail[i] == headers[i + 1]);
            }
        }
        if exists|i: int|
            0 <= i < headers.len() && header_steps(bytes, #[trigger] headers[i]) == seq![a] {
            let i = choose|i: int|
                0 <= i < headers.len() && header_steps(bytes, #[trigger] headers[i]) == seq![a];
            assert(seq![a][0] == a);
            if i == 0 {
                assert(steps[0] == a);
            } else {
                assert(tail[i - 1] == headers[i]);
                assert(rest.contains(a));
                let j = choose|j: int| 0 <= j < rest.len() && rest[j] == a;
                assert(steps[first.len() + j] == a);
            }
        }
    }
}

/// An extraction that ends without an error writes exactly the files of the
/// directory: the files written, each a path with its content, are the file
/// entries of the directory, each a name with the entry's decoded payload.
pub proof fn lemma_extraction_writes_the_files(bytes: Seq<u8>, pos: int)
    requires
        plan_from(bytes, pos).failure is None,
    ensures
        written_files(plan_from(bytes, pos).actions) == directory_files(
            bytes,
            directory_from(bytes, pos),
        ),
{
    let headers = directory_from(bytes, pos);
    let actions = plan_from(bytes, pos).actions;
    lemma_plan_covers_directory(bytes, pos);
    assert forall|file: (Seq<char>, Seq<u8>)|
        written_files(actions).contains(file) <==> directory_files(bytes, headers).contains(
            file,
        ) by {
        let write = ActionView::WriteFile { path: file.0, bytes: file.1 };
        lemma_steps_come_from_headers(bytes, headers, write);
        if actions.contains(write) {
            let i = choose|i: int|
                0 <= i < headers.len() && header_steps(bytes, #[trigger] headers[i]) == seq![
                    write,
                ];
            lemma_write_step_of_an_entry(bytes, headers[i], file);
        }
        if directory_files(bytes, headers).contains(file) {
            let i = choose|i: int|
                0 <= i < headers.len() && is_file_of(bytes, #[trigger] headers[i], file);
            lemma_write_step_of_an_entry(bytes, headers[i], file);
        }
    }
    assert(written_files(actions) =~= directory_files(bytes, headers));
}

/// An extraction that ends without an error, of a directory in which every
/// entry has a name, writes a file at the name of every entry that is no
/// directory, and nowhere else.
pub proof fn lemma_extraction_writes_the_paths(bytes: Seq<u8>, pos: int)
    requires
        plan_from(bytes, pos).failure is None,
        forall|i: int|
            0 <= i < directory_from(bytes, pos).len() ==> (#[trigger] directory_from(
                bytes,
                pos,
            )[i]).file_name.len() > 0,
    ensures
        written_paths(plan_from(bytes, pos).actions) == non_directory_names(
            directory_from(bytes, pos),
        ),
{
    let headers = directory_from(bytes, pos);
    let actions = plan_from(bytes, pos).actions;
    lemma_extraction_writes_the_files(bytes, pos);
    assert forall|path: Seq<char>|
        written_paths(actions).contains(path) <==> non_directory_names(headers).contains(
            path,
        ) by {
        if written_paths(actions).contains(path) {
            let content = choose|content: Seq<u8>| writes(actions, path, content);
            let file = (path, content);
            assert(written_files(actions).contains(file));
            assert(directory_files(bytes, headers).contains(file));
            let i = choose|i: int|
                0 <= i < headers.len() && is_file_of(bytes, #[trigger] headers[i], file);
            assert(headers[i].file_name == path);
        }
        if non_directory_names(headers).contains(path) {
            let i = choose|i: int|
                0 <= i < headers.len() && (#[trigger] headers[i]).file_name == path
                    && !names_directory(path);
            let file = (path, file_content(bytes, headers[i]));
            assert(is_file_of(bytes, headers[i], file));
            assert(directory_files(bytes, headers).contains(file));
            assert(written_files(actions).contains(file));
            assert(writes(actions, path, file.1));
        }
    }
    assert(written_paths(actions) =~= non_directory_names(headers));
}

/// What the file of an entry holds is the payload decoded by the entry's
/// method, wherever the entry resolves and decodes and its payload is not
/// empty or is stored: the payload itself for Store, what the inflater
/// makes of it for Deflate.
pub proof fn lemma_file_holds_the_decoded_payload(bytes: Seq<u8>, cdfh: CdfhView)
    requires
        header_extracts(bytes, cdfh),
        names_file(cdfh.file_name),
        entry_of(bytes, cdfh)->Ok_0.raw.len() > 0 || entry_of(
            bytes,
            cdfh,
        )->Ok_0.compression_method == CompressionMethod::Store,
    ensures
        decompressed(
            entry_of(bytes, cdfh)->Ok_0.compression_method,
            entry_of(bytes, cdfh)->Ok_0.raw,
            inflated(entry_of(bytes, cdfh)->Ok_0.raw),
        ) == Ok::<Seq<u8>, ZipError>(file_content(bytes, cdfh)),
        entry_of(bytes, cdfh)->Ok_0.compression_method == CompressionMethod::Store
            ==> file_content(bytes, cdfh) == entry_of(bytes, cdfh)->Ok_0.raw,
        entry_of(bytes, cdfh)->Ok_0.compression_method == CompressionMethod::Deflate ==> inflated(
            entry_of(bytes, cdfh)->Ok_0.raw,
        ) == Some(file_content(bytes, cdfh)),
{
    let entry = entry_of(bytes, cdfh)->Ok_0;
    if entry.raw.len() == 0 {
        assert(entry.raw =~= Seq::<u8>::empty());
    }
}

/// The steps as plain values, one for one.
pub open spec fn actions_view(actions: Seq<ExtractAction>) -> Seq<ActionView> {
    actions.map_values(|a: ExtractAction| a@)
}

/// Adding a step to the steps adds its plain value to theirs.
pub proof fn lemma_actions_view_push(actions: Seq<ExtractAction>, action: ExtractAction)
    ensures
        actions_view(actions.push(action)) == actions_view(actions) + seq![action@],
{
    assert(actions_view(actions.push(action)) =~= actions_view(actions) + seq![action@]);
}

/// What an extraction gives: the steps to perform, in order, and the error
/// that ended the walk, if one did. The steps before an error are still to
/// be performed.
#[derive(Debug)]
pub struct Extraction {
    pub actions: Vec<ExtractAction>,
    pub failure: Option<ZipError>,
}

} // verus!
