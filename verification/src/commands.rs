//! The commands the presentation layer can give. Each function makes the flow
//! that carries the command out; the host drives it with [`Flow::request`] and
//! [`Flow::step`] until it is done.
//!
//! A command that touches the recovery store takes the store and the label of the
//! window it came from. A command that would discard unsaved changes takes
//! `has_unsaved_changes`, which the presentation layer owns.

use crate::flow::{
    guarded, opt_draft, pending, without_directory, After, DraftOp, Flow, Guarded,
};
use crate::host::{Reply, Request};
use crate::recovery::{
    draft_location, is_label_char, lemma_clean_label_unchanged, sanitized, Draft, RecoveryStore,
};
use crate::text::{decimal, lemma_decimal_is_digits, opt_str, opt_text, to_decimal};
use crate::title::{render_title, title_text};
use vstd::prelude::*;

verus! {

/// The label of a window created at `now_millis` milliseconds since the epoch.
pub open spec fn window_label_at(now_millis: nat) -> Seq<char> {
    "notepad_"@ + decimal(now_millis)
}

/// The location of the window's draft, if the store can keep one.
pub open spec fn draft_of(data_dir: Option<Seq<char>>, label: Seq<char>) -> Option<
    Draft<Seq<char>>,
> {
    match draft_location(data_dir, label) {
        Ok(location) => Some(location),
        Err(_) => None,
    }
}

/// A flow on the draft of the window called `label`: the recovery directory is
/// made sure of first, and a store that cannot be located ends the flow.
pub open spec fn draft_flow(
    data_dir: Option<Seq<char>>,
    label: Seq<char>,
    op: DraftOp<Seq<char>>,
) -> Flow<Seq<char>> {
    match draft_location(data_dir, label) {
        Ok(location) => Flow::CheckingDirectory { location, op },
        Err(message) => without_directory(op, message),
    }
}

/// The flow of `new_file`.
pub open spec fn new_file_flow(now_millis: nat) -> Flow<Seq<char>> {
    Flow::CheckingMainWindow { label: window_label_at(now_millis) }
}

/// The flow of `open_file_with_confirmation`.
pub open spec fn open_file_flow(has_unsaved_changes: bool) -> Flow<Seq<char>> {
    guarded(has_unsaved_changes, Guarded::Open)
}

/// The flow of `save_file`.
pub open spec fn save_file_flow(
    data_dir: Option<Seq<char>>,
    label: Seq<char>,
    file_path: Option<Seq<char>>,
    content: Seq<char>,
) -> Flow<Seq<char>> {
    match file_path {
        Some(path) => Flow::WritingFile { path, content, draft: draft_of(data_dir, label) },
        None => Flow::PickingLocation { content, draft: draft_of(data_dir, label) },
    }
}

/// The flow of `save_as_file`: that of `save_file` for a document without a path.
pub open spec fn save_as_file_flow(
    data_dir: Option<Seq<char>>,
    label: Seq<char>,
    content: Seq<char>,
) -> Flow<Seq<char>> {
    save_file_flow(data_dir, label, None, content)
}

/// The flow of `clear_document_with_confirmation`.
pub open spec fn clear_document_flow(
    data_dir: Option<Seq<char>>,
    label: Seq<char>,
    has_unsaved_changes: bool,
) -> Flow<Seq<char>> {
    guarded(has_unsaved_changes, Guarded::Clear { draft: draft_of(data_dir, label) })
}

/// The flow of `update_title`.
pub open spec fn update_title_flow(filename: Option<Seq<char>>, is_modified: bool) -> Flow<
    Seq<char>,
> {
    Flow::SettingTitle {
        title: title_text(filename, is_modified),
        reply: Reply::Unit,
        strict: true,
    }
}

/// The flow of `auto_save_draft`.
pub open spec fn auto_save_draft_flow(
    data_dir: Option<Seq<char>>,
    label: Seq<char>,
    content: Seq<char>,
) -> Flow<Seq<char>> {
    draft_flow(data_dir, label, DraftOp::Save { content })
}

/// The flow of `get_recovery_content`.
pub open spec fn get_recovery_content_flow(data_dir: Option<Seq<char>>, label: Seq<char>) -> Flow<
    Seq<char>,
> {
    draft_flow(data_dir, label, DraftOp::Load)
}

/// The flow of `clear_recovery_file`.
pub open spec fn clear_recovery_file_flow(data_dir: Option<Seq<char>>, label: Seq<char>) -> Flow<
    Seq<char>,
> {
    draft_flow(data_dir, label, DraftOp::Clear { then: After::Report })
}

/// The flow of `handle_quit_request`.
pub open spec fn handle_quit_request_flow(
    data_dir: Option<Seq<char>>,
    label: Seq<char>,
    has_unsaved_changes: bool,
) -> Flow<Seq<char>> {
    guarded(has_unsaved_changes, Guarded::Quit { draft: draft_of(data_dir, label) })
}

/// Where the window's draft is kept, if the store can keep one.
fn locate(store: &RecoveryStore, window_label: &str) -> (draft: Option<Draft<String>>)
    ensures
        opt_draft(draft) == draft_of(store@, window_label@),
{
    match store.draft(window_label) {
        Ok(location) => Some(location),
        Err(_) => None,
    }
}

/// The flow of `op` on the window's draft.
fn on_draft(store: &RecoveryStore, window_label: &str, op: DraftOp<String>) -> (flow: Flow<String>)
    ensures
        flow@ == draft_flow(store@, window_label@, op@),
{
    Flow::on_draft(store.draft(window_label), op)
}

/// Opens a new, independent editor window. The primary window must be open, else
/// the command fails with `Main window not found`. The new window is called
/// `notepad_{now_millis}`, shows an untitled document, and has its close requests
/// intercepted like every other.
pub fn new_file(now_millis: u128) -> (flow: Flow<String>)
    ensures
        flow@ == new_file_flow(now_millis as nat),
{
    let digits = to_decimal(now_millis);
    Flow::CheckingMainWindow { label: "notepad_".to_owned().concat(digits.as_str()) }
}

/// Opens a document over the current one. With unsaved changes the user must
/// confirm first. The user then picks the file; it is read, the title is set to
/// its name, and the reply is its content and its path. Declining and cancelling
/// both reply `Opened(None)`; a file that cannot be read fails the command.
pub fn open_file_with_confirmation(has_unsaved_changes: bool) -> (flow: Flow<String>)
    ensures
        flow@ == open_file_flow(has_unsaved_changes),
{
    Flow::guard(has_unsaved_changes, Guarded::Open)
}

/// Saves `content` to `file_path`, or where the user says if the document has no
/// path yet. After a successful write the window's draft is removed, the title is
/// set to the file's name, and the reply is the path. Cancelling the dialog replies
/// `Path(None)`; a failed write fails the command.
pub fn save_file(
    store: &RecoveryStore,
    window_label: &str,
    file_path: Option<String>,
    content: String,
) -> (flow: Flow<String>)
    ensures
        flow@ == save_file_flow(store@, window_label@, opt_text(file_path), content@),
{
    let draft = locate(store, window_label);
    match file_path {
        Some(path) => Flow::WritingFile { path, content, draft },
        None => Flow::PickingLocation { content, draft },
    }
}

/// Saves `content` where the user says, whether or not the document has a path.
pub fn save_as_file(store: &RecoveryStore, window_label: &str, content: String) -> (flow: Flow<
    String,
>)
    ensures
        flow@ == save_as_file_flow(store@, window_label@, content@),
        pending(flow@) == Request::<Seq<char>>::PickSaveLocation,
{
    save_file(store, window_label, None, content)
}

/// Clears the document. With unsaved changes the user must confirm first. If the
/// clearing goes ahead, the window's draft is removed, whatever comes of that, the
/// title goes back to `Untitled - Jot`, and the reply is `Flag(true)`; declining
/// replies `Flag(false)` and keeps the draft.
pub fn clear_document_with_confirmation(
    store: &RecoveryStore,
    window_label: &str,
    has_unsaved_changes: bool,
) -> (flow: Flow<String>)
    ensures
        flow@ == clear_document_flow(store@, window_label@, has_unsaved_changes),
{
    Flow::guard(has_unsaved_changes, Guarded::Clear { draft: locate(store, window_label) })
}

/// Sets the window title for a document called `filename` that is or is not
/// modified. A title that cannot be set fails the command.
pub fn update_title(filename: Option<&str>, is_modified: bool) -> (flow: Flow<String>)
    ensures
        flow@ == update_title_flow(opt_str(filename), is_modified),
{
    Flow::SettingTitle {
        title: render_title(filename, is_modified),
        reply: Reply::Unit,
        strict: true,
    }
}

/// Keeps `content` as the window's draft, replacing the one before. Blank content
/// is not kept: the draft, if there is one, is removed instead.
pub fn auto_save_draft(store: &RecoveryStore, window_label: &str, content: String) -> (flow: Flow<
    String,
>)
    ensures
        flow@ == auto_save_draft_flow(store@, window_label@, content@),
{
    on_draft(store, window_label, DraftOp::Save { content })
}

/// Reads the window's draft. The reply is `Content(Some(..))` with the draft if
/// its file is there and is not blank, and `Content(None)` otherwise, also when the
/// file cannot be read.
pub fn get_recovery_content(store: &RecoveryStore, window_label: &str) -> (flow: Flow<String>)
    ensures
        flow@ == get_recovery_content_flow(store@, window_label@),
{
    on_draft(store, window_label, DraftOp::Load)
}

/// Removes the window's draft if there is one.
pub fn clear_recovery_file(store: &RecoveryStore, window_label: &str) -> (flow: Flow<String>)
    ensures
        flow@ == clear_recovery_file_flow(store@, window_label@),
{
    on_draft(store, window_label, DraftOp::Clear { then: After::Report })
}

/// Asks the user whether the draft that was found is to be recovered. The reply is
/// the answer.
pub fn show_recovery_dialog() -> (flow: Flow<String>)
    ensures
        flow@ == Flow::<Seq<char>>::AskingRecovery,
{
    Flow::AskingRecovery
}

/// Decides whether the window may close. With unsaved changes the user must
/// confirm first. If the window may close, its draft is removed, whatever comes of
/// that, and the reply is `Flag(true)`; declining replies `Flag(false)` and keeps
/// the draft.
pub fn handle_quit_request(
    store: &RecoveryStore,
    window_label: &str,
    has_unsaved_changes: bool,
) -> (flow: Flow<String>)
    ensures
        flow@ == handle_quit_request_flow(store@, window_label@, has_unsaved_changes),
{
    Flow::guard(has_unsaved_changes, Guarded::Quit { draft: locate(store, window_label) })
}

/// Ends the process at once, with exit code 0. Nothing is checked: the caller has
/// been through the confirmation gate already.
pub fn exit_app() -> (flow: Flow<String>)
    ensures
        flow@ == Flow::<Seq<char>>::Exiting,
{
    Flow::Exiting
}

/// The label of a new window is its own sanitized form: the window's draft is kept
/// under the very label the window goes by.
pub proof fn lemma_window_label_is_clean(now_millis: nat)
    ensures
        sanitized(window_label_at(now_millis)) == window_label_at(now_millis),
{
    reveal_strlit("notepad_");
    lemma_decimal_is_digits(now_millis);
    let label = window_label_at(now_millis);
    assert forall|i: int| 0 <= i < label.len() implies is_label_char(#[trigger] label[i]) by {
        if i >= 8 {
            assert(label[i] == decimal(now_millis)[i - 8]);
        }
    }
    lemma_clean_label_unchanged(label);
}

} // verus!
