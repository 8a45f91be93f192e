//! Whole invocations, from the first step to the outcome.
//!
//! A [`NativeLayer`] says how the native side answers during one invocation.
//! Driving the steps against it gives a [`Transcript`]: the native operations
//! that were asked for, in order, and the outcome. The laws below say what
//! that transcript is for each way the native side can answer.
use crate::decode::{
    after_count, after_entry, after_error, after_path, after_path_status, after_release,
    after_set_status, dialog_step, first_step, next_entry, NativeStatus, StepView,
};
use crate::encode::{encoded_request, has_terminator, lemma_terminator_is_refused, RequestView};
use crate::error::ErrorView;
use crate::text::lossy_text;
use crate::{DialogType, ResponseView};
use vstd::prelude::*;
use vstd::utf8::*;

verus! {

/// How the native side answers during one invocation.
pub struct NativeLayer {
    /// The status of the dialog call.
    pub status: NativeStatus,
    /// The bytes that the path slot points to after a single-path call.
    pub out_path: Seq<u8>,
    /// The bytes of the entries of the path collection after a multi-path
    /// call, by index.
    pub path_set: Seq<Seq<u8>>,
    /// The bytes of the message that the error query returns.
    pub error: Seq<u8>,
}

/// A native operation, as a driver is asked to perform it.
pub enum NativeCall {
    OpenDialog(RequestView),
    OpenDialogMultiple(RequestView),
    SaveDialog(RequestView),
    ReadPath,
    GetError,
    PathSetGetCount,
    PathSetGetPath(nat),
    PathSetFree,
}

/// What happened during one invocation.
pub struct Transcript {
    /// The native operations that were asked for, in order.
    pub calls: Seq<NativeCall>,
    /// What the invocation ended with.
    pub outcome: Result<ResponseView, ErrorView>,
}

/// The native operation that `step` asks for. Meaningless for a step that is
/// `Done`.
pub open spec fn call_of(step: StepView) -> NativeCall {
    match step {
        StepView::OpenDialog { request } => NativeCall::OpenDialog(request),
        StepView::OpenDialogMultiple { request } => NativeCall::OpenDialogMultiple(request),
        StepView::SaveDialog { request } => NativeCall::SaveDialog(request),
        StepView::ReadPath => NativeCall::ReadPath,
        StepView::GetError => NativeCall::GetError,
        StepView::PathSetGetCount => NativeCall::PathSetGetCount,
        StepView::PathSetGetPath { index, .. } => NativeCall::PathSetGetPath(index),
        StepView::PathSetFree { .. } => NativeCall::PathSetFree,
        StepView::Done(_) => arbitrary(),
    }
}

/// The step that follows `step` once `native` has answered the operation it
/// asks for.
pub open spec fn answered(step: StepView, native: NativeLayer) -> StepView {
    match step {
        StepView::OpenDialog { .. } => after_path_status(native.status),
        StepView::OpenDialogMultiple { .. } => after_set_status(native.status),
        StepView::SaveDialog { .. } => after_path_status(native.status),
        StepView::ReadPath => after_path(lossy_text(native.out_path)),
        StepView::GetError => after_error(lossy_text(native.error)),
        StepView::PathSetGetCount => after_count(native.path_set.len()),
        StepView::PathSetGetPath { index, after } => after_entry(
            after,
            lossy_text(native.path_set[index as int]),
        ),
        StepView::PathSetFree { paths } => after_release(paths),
        StepView::Done(outcome) => StepView::Done(outcome),
    }
}

/// A bound on the number of operations that are still asked for from `step`
/// on.
pub open spec fn calls_left(step: StepView, native: NativeLayer) -> nat {
    match step {
        StepView::OpenDialog { .. } => 2,
        StepView::OpenDialogMultiple { .. } => native.path_set.len() + 3,
        StepView::SaveDialog { .. } => 2,
        StepView::ReadPath => 1,
        StepView::GetError => 1,
        StepView::PathSetGetCount => native.path_set.len() + 2,
        StepView::PathSetGetPath { after, .. } => if after.paths.len() < after.count {
            (after.count - after.paths.len() + 1) as nat
        } else {
            2
        },
        StepView::PathSetFree { .. } => 1,
        StepView::Done(_) => 0,
    }
}

/// The transcript of the invocation that stands at `step`, driven against
/// `native` until it is done.
pub open spec fn transcript(step: StepView, native: NativeLayer) -> Transcript
    decreases calls_left(step, native),
{
    match step {
        StepView::Done(outcome) => Transcript { calls: Seq::empty(), outcome },
        _ => {
            let rest = transcript(answered(step, native), native);
            Transcript { calls: seq![call_of(step)] + rest.calls, outcome: rest.outcome }
        },
    }
}

/// The dialog call that `dialog_type` selects.
pub open spec fn dialog_call(dialog_type: DialogType, request: RequestView) -> NativeCall {
    call_of(dialog_step(dialog_type, request))
}

/// Whether `call` is one of the three dialog calls.
pub open spec fn is_dialog_call(call: NativeCall) -> bool {
    call is OpenDialog || call is OpenDialogMultiple || call is SaveDialog
}

/// The queries for the entries at `from`, `from + 1`, ... up to `to`
/// exclusive, in ascending order.
pub open spec fn path_reads(from: nat, to: nat) -> Seq<NativeCall> {
    Seq::new((to - from) as nat, |i: int| NativeCall::PathSetGetPath((from + i) as nat))
}

/// The text of each entry of `entries`, in order.
pub open spec fn decoded(entries: Seq<Seq<u8>>) -> Seq<Seq<char>> {
    entries.map_values(|entry: Seq<u8>| lossy_text(entry))
}

/// `calls` never releases the path collection.
pub open spec fn never_releases(calls: Seq<NativeCall>) -> bool {
    forall|i: int| 0 <= i < calls.len() ==> calls[i] != NativeCall::PathSetFree
}

/// `calls` releases the path collection exactly once, as its last operation.
pub open spec fn releases_once_at_end(calls: Seq<NativeCall>) -> bool {
    &&& calls.len() > 0
    &&& calls.last() == NativeCall::PathSetFree
    &&& never_releases(calls.drop_last())
}

/// When the native side reports a cancellation, the dialog call is the only
/// operation of the invocation, whatever the dialog type, and the outcome is
/// `Cancel`. The path collection is never released: none was allocated.
pub proof fn lemma_cancel(dialog_type: DialogType, request: RequestView, native: NativeLayer)
    requires
        native.status == NativeStatus::Cancel,
    ensures
        transcript(dialog_step(dialog_type, request), native) == (Transcript {
            calls: seq![dialog_call(dialog_type, request)],
            outcome: Ok(ResponseView::Cancel),
        }),
        never_releases(transcript(dialog_step(dialog_type, request), native).calls),
{
    reveal_with_fuel(transcript, 2);
    let found = transcript(dialog_step(dialog_type, request), native);
    assert(found.calls =~= seq![dialog_call(dialog_type, request)]);
}

/// When the native side reports an error, the error message is queried at
/// once and the invocation fails with the text of that message. Nothing else
/// is asked of the native side after the query; in particular the path
/// collection is never released.
pub proof fn lemma_error(dialog_type: DialogType, request: RequestView, native: NativeLayer)
    requires
        native.status == NativeStatus::Error,
    ensures
        transcript(dialog_step(dialog_type, request), native) == (Transcript {
            calls: seq![dialog_call(dialog_type, request), NativeCall::GetError],
            outcome: Err(ErrorView::Error(lossy_text(native.error))),
        }),
        never_releases(transcript(dialog_step(dialog_type, request), native).calls),
{
    reveal_with_fuel(transcript, 3);
    let found = transcript(dialog_step(dialog_type, request), native);
    assert(found.calls =~= seq![dialog_call(dialog_type, request), NativeCall::GetError]);
}

/// When a single-path dialog is confirmed, the selected path is read and the
/// outcome is `Okay` with its text. The path collection is never released:
/// there is none.
pub proof fn lemma_single_path(dialog_type: DialogType, request: RequestView, native: NativeLayer)
    requires
        dialog_type != DialogType::MultipleFiles,
        native.status == NativeStatus::Okay,
    ensures
        transcript(dialog_step(dialog_type, request), native) == (Transcript {
            calls: seq![dialog_call(dialog_type, request), NativeCall::ReadPath],
            outcome: Ok(ResponseView::Okay(lossy_text(native.out_path))),
        }),
        never_releases(transcript(dialog_step(dialog_type, request), native).calls),
{
    reveal_with_fuel(transcript, 3);
    let found = transcript(dialog_step(dialog_type, request), native);
    assert(found.calls =~= seq![dialog_call(dialog_type, request), NativeCall::ReadPath]);
}

/// Once the first `copied` entries of the collection are held, the remaining
/// ones are queried in ascending order, then the collection is released, and
/// the outcome holds the text of every entry in the collection's order.
proof fn lemma_remaining_entries(native: NativeLayer, copied: nat)
    requires
        copied <= native.path_set.len(),
    ensures
        transcript(
            next_entry(native.path_set.len(), decoded(native.path_set.take(copied as int))),
            native,
        ) == (Transcript {
            calls: path_reads(copied, native.path_set.len()) + seq![NativeCall::PathSetFree],
            outcome: Ok(ResponseView::OkayMultiple(decoded(native.path_set))),
        }),
    decreases native.path_set.len() - copied,
{
    let count = native.path_set.len();
    let paths = decoded(native.path_set.take(copied as int));
    let step = next_entry(count, paths);
    let found = transcript(step, native);
    if copied == count {
        reveal_with_fuel(transcript, 2);
        assert(native.path_set.take(copied as int) =~= native.path_set);
        assert(found.calls =~= path_reads(copied, count) + seq![NativeCall::PathSetFree]);
    } else {
        let longer = decoded(native.path_set.take((copied + 1) as int));
        assert(paths.push(lossy_text(native.path_set[copied as int])) =~= longer);
        assert(answered(step, native) == next_entry(count, longer));
        lemma_remaining_entries(native, copied + 1);
        assert(found.calls =~= path_reads(copied, count) + seq![NativeCall::PathSetFree]);
    }
}

/// When a multi-path dialog is confirmed, the collection's count is read,
/// then each entry is queried once, by index in ascending order, then the
/// collection is released: exactly once, and after all the reads. The outcome
/// is `OkayMultiple` with the text of the entries in the collection's order.
pub proof fn lemma_multiple_paths(request: RequestView, native: NativeLayer)
    requires
        native.status == NativeStatus::Okay,
    ensures
        transcript(dialog_step(DialogType::MultipleFiles, request), native) == (Transcript {
            calls: seq![NativeCall::OpenDialogMultiple(request), NativeCall::PathSetGetCount]
                + path_reads(0, native.path_set.len()) + seq![NativeCall::PathSetFree],
            outcome: Ok(ResponseView::OkayMultiple(decoded(native.path_set))),
        }),
        releases_once_at_end(
            transcript(dialog_step(DialogType::MultipleFiles, request), native).calls,
        ),
{
    reveal_with_fuel(transcript, 3);
    let found = transcript(dialog_step(DialogType::MultipleFiles, request), native);
    let count = native.path_set.len();
    assert(decoded(native.path_set.take(0)) =~= Seq::<Seq<char>>::empty());
    lemma_remaining_entries(native, 0);
    assert(found.calls =~= seq![
        NativeCall::OpenDialogMultiple(request),
        NativeCall::PathSetGetCount,
    ] + path_reads(0, count) + seq![NativeCall::PathSetFree]);
}

/// When a multi-path dialog is confirmed with an empty collection, the
/// outcome is `OkayMultiple` with no paths, not `Cancel`, and the collection
/// is still released exactly once.
pub proof fn lemma_empty_selection(request: RequestView, native: NativeLayer)
    requires
        native.status == NativeStatus::Okay,
        native.path_set.len() == 0,
    ensures
        transcript(dialog_step(DialogType::MultipleFiles, request), native) == (Transcript {
            calls: seq![
                NativeCall::OpenDialogMultiple(request),
                NativeCall::PathSetGetCount,
                NativeCall::PathSetFree,
            ],
            outcome: Ok(ResponseView::OkayMultiple(Seq::empty())),
        }),
{
    lemma_multiple_paths(request, native);
    let found = transcript(dialog_step(DialogType::MultipleFiles, request), native);
    assert(found.calls =~= seq![
        NativeCall::OpenDialogMultiple(request),
        NativeCall::PathSetGetCount,
        NativeCall::PathSetFree,
    ]);
    assert(decoded(native.path_set) =~= Seq::<Seq<char>>::empty());
}

/// When a string of the request holds a terminator byte, the invocation fails
/// with the encoding failure and asks for no native operation at all.
pub proof fn lemma_refused_without_call(
    dialog_type: DialogType,
    filter_list: Option<Seq<char>>,
    default_path: Option<Seq<char>>,
    native: NativeLayer,
)
    requires
        (filter_list matches Some(text) && has_terminator(encode_utf8(text))) || (
        default_path matches Some(text) && has_terminator(encode_utf8(text))),
    ensures
        transcript(first_step(dialog_type, filter_list, default_path), native).calls
            == Seq::<NativeCall>::empty(),
        transcript(first_step(dialog_type, filter_list, default_path), native).outcome matches Err(
            error,
        ) && error is NulError,
{
    lemma_terminator_is_refused(filter_list, default_path);
}

/// Whatever the request and however the native side answers: an invocation
/// makes at most one dialog call, and that first of all; it releases the path
/// collection exactly once, as its last operation, when a multi-path dialog
/// was confirmed, and never otherwise.
pub proof fn lemma_one_dialog_one_release(
    dialog_type: DialogType,
    filter_list: Option<Seq<char>>,
    default_path: Option<Seq<char>>,
    native: NativeLayer,
)
    ensures
        ({
            let calls = transcript(first_step(dialog_type, filter_list, default_path), native).calls;
            let confirmed_set = encoded_request(filter_list, default_path) is Ok && dialog_type
                == DialogType::MultipleFiles && native.status == NativeStatus::Okay;
            &&& forall|i: int| 0 <= i < calls.len() ==> (is_dialog_call(calls[i]) <==> i == 0)
            &&& confirmed_set ==> releases_once_at_end(calls)
            &&& !confirmed_set ==> never_releases(calls)
        }),
{
    let calls = transcript(first_step(dialog_type, filter_list, default_path), native).calls;
    match encoded_request(filter_list, default_path) {
        Err(_) => {},
        Ok(request) => {
            match native.status {
                NativeStatus::Cancel => lemma_cancel(dialog_type, request, native),
                NativeStatus::Error => lemma_error(dialog_type, request, native),
                NativeStatus::Okay => {
                    if dialog_type == DialogType::MultipleFiles {
                        lemma_multiple_paths(request, native);
                    } else {
                        lemma_single_path(dialog_type, request, native);
                    }
                },
            }
        },
    }
}

} // verus!
