//! A memory-safe request/response layer in front of a native "open/save file"
//! dialog library.
//!
//! The native library is reached through a foreign function interface; this
//! crate holds everything around the foreign calls themselves: it encodes the
//! caller's strings into null-terminated buffers, picks the native operation
//! for the requested dialog, and decodes what the native side answers into a
//! [`Response`] or an [`NFDError`].
//!
//! The crate performs no foreign call. An invocation is a sequence of
//! [`Step`]s: each step names the one native operation to perform next and
//! carries a continuation that takes that operation's answer and yields the
//! following step, until [`Step::Done`] carries the outcome. A continuation is
//! used up by its answer, so no operation can be answered twice.
pub mod decode;
pub mod encode;
pub mod error;
pub mod text;
pub mod transcript;

pub use decode::{NativeStatus, Step};
pub use encode::{EncodedRequest, NativeBuffer};
pub use error::NFDError;

use decode::{first_step, AwaitPathStatus, AwaitSetStatus};
use encode::{encode_request, text_of};
use vstd::prelude::*;

verus! {

/// Result of opening a file dialog.
#[derive(Debug, PartialEq, Eq)]
pub enum Response {
    /// User pressed okay. `String` is the file path selected.
    Okay(String),
    /// User pressed okay on multiple selections. Holds the selected paths in
    /// the order in which the native library lists them; there may be none.
    OkayMultiple(Vec<String>),
    /// User pressed cancel.
    Cancel,
}

/// The mathematical value of a [`Response`].
pub enum ResponseView {
    Okay(Seq<char>),
    OkayMultiple(Seq<Seq<char>>),
    Cancel,
}

/// The characters of each string of `paths`, in order.
pub open spec fn texts(paths: Seq<String>) -> Seq<Seq<char>> {
    paths.map_values(|path: String| path@)
}

impl View for Response {
    type V = ResponseView;

    open spec fn view(&self) -> ResponseView {
        match self {
            Response::Okay(path) => ResponseView::Okay(path@),
            Response::OkayMultiple(paths) => ResponseView::OkayMultiple(texts(paths@)),
            Response::Cancel => ResponseView::Cancel,
        }
    }
}

/// Which dialog is asked for. It selects the native operation and the shape
/// of what that operation hands back.
#[derive(Clone, Copy, Debug, PartialEq, Eq, Structural)]
pub enum DialogType {
    /// Pick one file to open: the native side hands back one path.
    SingleFile,
    /// Pick any number of files to open: the native side hands back a
    /// collection of paths.
    MultipleFiles,
    /// Pick where to save: the native side hands back one path.
    SaveFile,
}

/// Collects the optional settings of a dialog, then begins an invocation.
#[derive(Clone, Copy, Debug)]
pub struct DialogBuilder<'a> {
    filter: Option<&'a str>,
    default_path: Option<&'a str>,
}

impl<'a> DialogBuilder<'a> {
    /// The filter list that was set, if any.
    pub closed spec fn filter_text(&self) -> Option<Seq<char>> {
        text_of(self.filter)
    }

    /// The default starting path that was set, if any.
    pub closed spec fn default_path_text(&self) -> Option<Seq<char>> {
        text_of(self.default_path)
    }

    /// Sets the filter list, in the native library's own filter
    /// syntax, and leaves the default path as it is.
    pub fn filter(&'a mut self, filter: &'a str) -> (builder: &'a mut DialogBuilder<'a>)
        ensures
            builder.filter_text() == Some(filter@),
            builder.default_path_text() == old(self).default_path_text(),
            *final(self) == *final(builder),
    {
        self.filter = Some(filter);
        self
    }

    /// Sets the default starting path and leaves the filter as it is.
    pub fn default_path(&'a mut self, path: &'a str) -> (builder: &'a mut DialogBuilder<'a>)
        ensures
            builder.default_path_text() == Some(path@),
            builder.filter_text() == old(self).filter_text(),
            *final(self) == *final(builder),
    {
        self.default_path = Some(path);
        self
    }

    /// Begins a single file dialog with the settings collected so far.
    pub fn open(&self) -> (step: Step)
        ensures
            step@ == first_step(
                DialogType::SingleFile,
                self.filter_text(),
                self.default_path_text(),
            ),
    {
        open_file_dialog(self.filter, self.default_path)
    }

    /// Begins a multiple file dialog with the settings collected so far.
    pub fn open_multiple(&self) -> (step: Step)
        ensures
            step@ == first_step(
                DialogType::MultipleFiles,
                self.filter_text(),
                self.default_path_text(),
            ),
    {
        open_file_multiple_dialog(self.filter, self.default_path)
    }

    /// Begins a save dialog with the settings collected so far.
    pub fn save(&self) -> (step: Step)
        ensures
            step@ == first_step(
                DialogType::SaveFile,
                self.filter_text(),
                self.default_path_text(),
            ),
    {
        open_save_dialog(self.filter, self.default_path)
    }
}

/// A builder with neither a filter nor a default path set.
pub fn dialog<'a>() -> (builder: DialogBuilder<'a>)
    ensures
        builder.filter_text() == None::<Seq<char>>,
        builder.default_path_text() == None::<Seq<char>>,
{
    DialogBuilder { filter: None, default_path: None }
}

/// Begins a dialog invocation: encodes the two strings and yields the first
/// step.
///
/// Where a string holds a terminator byte the first step is already the last:
/// it is `Step::Done` with the encoding failure, and no native operation is
/// asked for. Otherwise it is the dialog call that `dialog_type` selects, with
/// the encoded strings.
pub fn open_dialog(
    filter_list: Option<&str>,
    default_path: Option<&str>,
    dialog_type: DialogType,
) -> (step: Step)
    ensures
        step@ == first_step(dialog_type, text_of(filter_list), text_of(default_path)),
{
    let request = match encode_request(filter_list, default_path) {
        Ok(request) => request,
        Err(error) => {
            return Step::Done(Err(error));
        },
    };
    match dialog_type {
        DialogType::SingleFile => Step::OpenDialog { request, after: AwaitPathStatus::new() },
        DialogType::MultipleFiles => Step::OpenDialogMultiple {
            request,
            after: AwaitSetStatus::new(),
        },
        DialogType::SaveFile => Step::SaveDialog { request, after: AwaitPathStatus::new() },
    }
}

/// Open single file dialog.
pub fn open_file_dialog(filter_list: Option<&str>, default_path: Option<&str>) -> (step: Step)
    ensures
        step@ == first_step(DialogType::SingleFile, text_of(filter_list), text_of(default_path)),
{
    open_dialog(filter_list, default_path, DialogType::SingleFile)
}

/// Open multiple file dialog.
pub fn open_file_multiple_dialog(filter_list: Option<&str>, default_path: Option<&str>) -> (step:
    Step)
    ensures
        step@ == first_step(
            DialogType::MultipleFiles,
            text_of(filter_list),
            text_of(default_path),
        ),
{
    open_dialog(filter_list, default_path, DialogType::MultipleFiles)
}

/// Open save dialog.
pub fn open_save_dialog(filter_list: Option<&str>, default_path: Option<&str>) -> (step: Step)
    ensures
        step@ == first_step(DialogType::SaveFile, text_of(filter_list), text_of(default_path)),
{
    open_dialog(filter_list, default_path, DialogType::SaveFile)
}

} // verus!
