//! The dialog invoker and result decoder.
//!
//! One invocation makes exactly one dialog call and then decodes what the
//! native side answered. Which operations follow depends on the answers, so
//! the invocation is laid out as steps. A [`Step`] either names the native
//! operation to perform next, together with the continuation that takes its
//! answer, or it is [`Step::Done`] with the outcome. Whoever drives the
//! invocation performs each operation and feeds its answer to the
//! continuation; nothing else is left to decide there.
//!
//! Each continuation is a type of its own and is consumed by its answer. An
//! answer of the wrong kind, a second answer to one operation, a second
//! release of the path collection or a read after it cannot be written down.
use crate::encode::{encoded_request, EncodedRequest, RequestView};
use crate::error::{ErrorView, NFDError};
use crate::text::{lossy_text, owned_text};
use crate::{texts, DialogType, Response, ResponseView};
use vstd::prelude::*;
use vstd::utf8::*;

verus! {

/// The status code of a native dialog call: its whole wire contract.
#[derive(Clone, Copy, Debug, PartialEq, Eq, Structural)]
pub enum NativeStatus {
    /// The user confirmed a selection; the output slot was filled.
    Okay,
    /// The user dismissed the dialog; nothing was allocated.
    Cancel,
    /// The native library failed; its message is to be queried at once.
    Error,
}

/// One step of a dialog invocation: the native operation to perform next, or
/// the outcome.
#[derive(Debug)]
#[allow(inconsistent_fields)]
pub enum Step {
    /// Call the native single-path open with `request`, its output a path
    /// slot; answer with its status.
    OpenDialog { request: EncodedRequest, after: AwaitPathStatus },
    /// Call the native multi-path open with `request`, its output a path
    /// collection; answer with its status.
    OpenDialogMultiple { request: EncodedRequest, after: AwaitSetStatus },
    /// Call the native single-path save with `request`, its output a path
    /// slot; answer with its status.
    SaveDialog { request: EncodedRequest, after: AwaitPathStatus },
    /// Read the null-terminated string that the path slot points to; answer
    /// with its bytes, the terminator left out.
    ReadPath { after: AwaitPath },
    /// Query the native error message; answer with its bytes, the terminator
    /// left out.
    GetError { after: AwaitError },
    /// Query the number of entries of the path collection; answer with it.
    PathSetGetCount { after: AwaitCount },
    /// Query the entry at `index` of the path collection; answer with its
    /// bytes, the terminator left out.
    PathSetGetPath { index: usize, after: AwaitEntry },
    /// Release the path collection; answer when that is done.
    PathSetFree { after: AwaitRelease },
    /// The invocation is over, with this outcome.
    Done(Result<Response, NFDError>),
}

/// Awaits the status of a dialog call whose output is a path slot.
#[derive(Debug)]
pub struct AwaitPathStatus {
    sealed: (),
}

/// Awaits the status of a dialog call whose output is a path collection.
#[derive(Debug)]
pub struct AwaitSetStatus {
    sealed: (),
}

/// Awaits the bytes of the selected path.
#[derive(Debug)]
pub struct AwaitPath {
    sealed: (),
}

/// Awaits the bytes of the native error message.
#[derive(Debug)]
pub struct AwaitError {
    sealed: (),
}

/// Awaits the number of entries of the path collection.
#[derive(Debug)]
pub struct AwaitCount {
    sealed: (),
}

/// Awaits the bytes of one entry of the path collection. Holds the entries
/// copied so far, which are fewer than the collection's count.
#[derive(Debug)]
pub struct AwaitEntry {
    count: usize,
    paths: Vec<String>,
}

/// Awaits the release of the path collection. Holds all of its entries.
#[derive(Debug)]
pub struct AwaitRelease {
    paths: Vec<String>,
}

/// The mathematical value of an [`AwaitEntry`]: the collection's count and
/// the text of the entries copied so far.
pub struct EntriesView {
    pub count: nat,
    pub paths: Seq<Seq<char>>,
}

/// The mathematical value of a [`Step`].
pub enum StepView {
    OpenDialog { request: RequestView },
    OpenDialogMultiple { request: RequestView },
    SaveDialog { request: RequestView },
    ReadPath,
    GetError,
    PathSetGetCount,
    PathSetGetPath { index: nat, after: EntriesView },
    PathSetFree { paths: Seq<Seq<char>> },
    Done(Result<ResponseView, ErrorView>),
}

impl View for AwaitEntry {
    type V = EntriesView;

    closed spec fn view(&self) -> EntriesView {
        EntriesView { count: self.count as nat, paths: texts(self.paths@) }
    }
}

impl View for AwaitRelease {
    type V = Seq<Seq<char>>;

    closed spec fn view(&self) -> Seq<Seq<char>> {
        texts(self.paths@)
    }
}

/// The mathematical value of an outcome.
pub open spec fn outcome_view(outcome: Result<Response, NFDError>) -> Result<
    ResponseView,
    ErrorView,
> {
    match outcome {
        Ok(response) => Ok(response@),
        Err(error) => Err(error@),
    }
}

impl View for Step {
    type V = StepView;

    open spec fn view(&self) -> StepView {
        match self {
            Step::OpenDialog { request, .. } => StepView::OpenDialog { request: request@ },
            Step::OpenDialogMultiple { request, .. } => StepView::OpenDialogMultiple {
                request: request@,
            },
            Step::SaveDialog { request, .. } => StepView::SaveDialog { request: request@ },
            Step::ReadPath { .. } => StepView::ReadPath,
            Step::GetError { .. } => StepView::GetError,
            Step::PathSetGetCount { .. } => StepView::PathSetGetCount,
            Step::PathSetGetPath { index, after } => StepView::PathSetGetPath {
                index: *index as nat,
                after: after@,
            },
            Step::PathSetFree { after } => StepView::PathSetFree { paths: after@ },
            Step::Done(outcome) => StepView::Done(outcome_view(*outcome)),
        }
    }
}

/// The dialog call that `dialog_type` selects, with `request` as its
/// arguments.
pub open spec fn dialog_step(dialog_type: DialogType, request: RequestView) -> StepView {
    match dialog_type {
        DialogType::SingleFile => StepView::OpenDialog { request },
        DialogType::MultipleFiles => StepView::OpenDialogMultiple { request },
        DialogType::SaveFile => StepView::SaveDialog { request },
    }
}

/// The first step of an invocation: the encoding failure, if there is one,
/// else the dialog call with the encoded strings.
pub open spec fn first_step(
    dialog_type: DialogType,
    filter_list: Option<Seq<char>>,
    default_path: Option<Seq<char>>,
) -> StepView {
    match encoded_request(filter_list, default_path) {
        Err(error) => StepView::Done(Err(error)),
        Ok(request) => dialog_step(dialog_type, request),
    }
}

/// What follows the status of a dialog call whose output is a path slot:
/// the path is read, the invocation ends as cancelled, or the error message
/// is queried.
pub open spec fn after_path_status(status: NativeStatus) -> StepView {
    match status {
        NativeStatus::Okay => StepView::ReadPath,
        NativeStatus::Cancel => StepView::Done(Ok(ResponseView::Cancel)),
        NativeStatus::Error => StepView::GetError,
    }
}

/// What follows the status of a dialog call whose output is a path
/// collection: the collection's count is queried, the invocation ends as
/// cancelled, or the error message is queried.
pub open spec fn after_set_status(status: NativeStatus) -> StepView {
    match status {
        NativeStatus::Okay => StepView::PathSetGetCount,
        NativeStatus::Cancel => StepView::Done(Ok(ResponseView::Cancel)),
        NativeStatus::Error => StepView::GetError,
    }
}

/// What follows the text of the selected path: the invocation ends with it.
pub open spec fn after_path(path: Seq<char>) -> StepView {
    StepView::Done(Ok(ResponseView::Okay(path)))
}

/// What follows the text of the native error message: the invocation fails
/// with it.
pub open spec fn after_error(message: Seq<char>) -> StepView {
    StepView::Done(Err(ErrorView::Error(message)))
}

/// What follows once `paths` have been copied out of a collection of `count`
/// entries: the next entry is queried, in ascending order, or, when none is
/// left, the collection is released.
pub open spec fn next_entry(count: nat, paths: Seq<Seq<char>>) -> StepView {
    if paths.len() < count {
        StepView::PathSetGetPath { index: paths.len(), after: EntriesView { count, paths } }
    } else {
        StepView::PathSetFree { paths }
    }
}

/// What follows the collection's count.
pub open spec fn after_count(count: nat) -> StepView {
    next_entry(count, Seq::empty())
}

/// What follows the text of one more entry.
pub open spec fn after_entry(entries: EntriesView, path: Seq<char>) -> StepView {
    next_entry(entries.count, entries.paths.push(path))
}

/// What follows the release of the collection: the invocation ends with all
/// of its entries, in the order in which they were copied.
pub open spec fn after_release(paths: Seq<Seq<char>>) -> StepView {
    StepView::Done(Ok(ResponseView::OkayMultiple(paths)))
}

impl AwaitPathStatus {
    pub(crate) fn new() -> AwaitPathStatus {
        AwaitPathStatus { sealed: () }
    }

    /// Takes the status of the dialog call.
    pub fn resume(self, status: NativeStatus) -> (next: Step)
        ensures
            next@ == after_path_status(status),
    {
        match status {
            NativeStatus::Okay => Step::ReadPath { after: AwaitPath { sealed: () } },
            NativeStatus::Cancel => Step::Done(Ok(Response::Cancel)),
            NativeStatus::Error => Step::GetError { after: AwaitError { sealed: () } },
        }
    }
}

impl AwaitSetStatus {
    pub(crate) fn new() -> AwaitSetStatus {
        AwaitSetStatus { sealed: () }
    }

    /// Takes the status of the dialog call.
    pub fn resume(self, status: NativeStatus) -> (next: Step)
        ensures
            next@ == after_set_status(status),
    {
        match status {
            NativeStatus::Okay => Step::PathSetGetCount { after: AwaitCount { sealed: () } },
            NativeStatus::Cancel => Step::Done(Ok(Response::Cancel)),
            NativeStatus::Error => Step::GetError { after: AwaitError { sealed: () } },
        }
    }
}

impl AwaitPath {
    /// Takes the bytes of the selected path and copies them into an owned
    /// string. Bytes that are not well-formed UTF-8 are no failure.
    pub fn resume(self, bytes: &[u8]) -> (next: Step)
        ensures
            next@ == after_path(lossy_text(bytes@)),
            valid_utf8(bytes@) ==> next@ == after_path(decode_utf8(bytes@)),
    {
        self.resume_text(owned_text(bytes))
    }

    /// Takes the selected path as text.
    pub fn resume_text(self, path: String) -> (next: Step)
        ensures
            next@ == after_path(path@),
    {
        Step::Done(Ok(Response::Okay(path)))
    }
}

impl AwaitError {
    /// Takes the bytes of the native error message and copies them into an
    /// owned string. Bytes that are not well-formed UTF-8 are no failure.
    pub fn resume(self, bytes: &[u8]) -> (next: Step)
        ensures
            next@ == after_error(lossy_text(bytes@)),
            valid_utf8(bytes@) ==> next@ == after_error(decode_utf8(bytes@)),
    {
        self.resume_text(owned_text(bytes))
    }

    /// Takes the native error message as text.
    pub fn resume_text(self, message: String) -> (next: Step)
        ensures
            next@ == after_error(message@),
    {
        Step::Done(Err(NFDError::Error(message)))
    }
}

/// Queries the next entry, or releases the collection when all `count`
/// entries are in `paths`.
fn query_next(count: usize, paths: Vec<String>) -> (next: Step)
    ensures
        next@ == next_entry(count as nat, texts(paths@)),
{
    let index = paths.len();
    if index < count {
        Step::PathSetGetPath { index, after: AwaitEntry { count, paths } }
    } else {
        Step::PathSetFree { after: AwaitRelease { paths } }
    }
}

impl AwaitCount {
    /// Takes the number of entries of the path collection. An empty
    /// collection is a selection of no paths, not a cancellation.
    pub fn resume(self, count: usize) -> (next: Step)
        ensures
            next@ == after_count(count as nat),
    {
        let paths: Vec<String> = Vec::new();
        proof {
            assert(texts(paths@) =~= Seq::empty());
        }
        query_next(count, paths)
    }
}

impl AwaitEntry {
    #[verifier::type_invariant]
    spec fn well_formed(&self) -> bool {
        self.paths@.len() < self.count
    }

    /// Takes the bytes of the entry that was queried and copies them into an
    /// owned string. Bytes that are not well-formed UTF-8 are no failure.
    pub fn resume(self, bytes: &[u8]) -> (next: Step)
        ensures
            next@ == after_entry(self@, lossy_text(bytes@)),
            valid_utf8(bytes@) ==> next@ == after_entry(self@, decode_utf8(bytes@)),
    {
        self.resume_text(owned_text(bytes))
    }

    /// Takes the entry that was queried as text.
    pub fn resume_text(self, path: String) -> (next: Step)
        ensures
            next@ == after_entry(self@, path@),
    {
        let AwaitEntry { count, mut paths } = self;
        let ghost before = paths@;
        paths.push(path);
        proof {
            assert(texts(paths@) =~= texts(before).push(path@));
        }
        query_next(count, paths)
    }
}

impl AwaitRelease {
    /// Takes the news that the path collection was released.
    pub fn resume(self) -> (next: Step)
        ensures
            next@ == after_release(self@),
    {
        Step::Done(Ok(Response::OkayMultiple(self.paths)))
    }
}

} // verus!
