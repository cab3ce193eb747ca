//! Flows: the decisions of each command, step by step.
//!
//! A command of the editor alternates work that only the host runtime can do (a
//! dialog, a file, a window) with decisions about what to do next. The decisions
//! are here. A [`Flow`] is the state of one command in progress. Its
//! [`Flow::request`] names what the host is to do now; once the host has answered,
//! [`Flow::step`] gives the state that follows. The flow is over when its request
//! is [`Request::Done`].
//!
//! An answer that does not fit the pending request is ignored: the flow stays
//! where it is and asks again.

use crate::gate::{
    ConfirmationOutcome, DISCARD_MESSAGE, QUIT_MESSAGE, RECOVERY_MESSAGE, RECOVERY_TITLE,
    UNSAVED_TITLE,
};
use crate::host::{Reply, Request, Response};
use crate::recovery::Draft;
use crate::text::{blank, is_blank, opt_text};
use crate::title::{document_title, render_title, title_for_path, untitled_title};
use vstd::prelude::*;

verus! {

/// The label of the primary window.
pub const MAIN_WINDOW: &'static str = "main";

/// The page every editor window shows.
pub const WINDOW_URL: &'static str = "index.html";

/// The width of a new window.
pub const WINDOW_WIDTH: u32 = 800;

/// The height of a new window.
pub const WINDOW_HEIGHT: u32 = 600;

/// Why a flow that needs the recovery store gives up when the user has no data
/// directory.
pub const NO_DATA_DIR: &'static str = "Could not find app data directory";

/// What follows once a draft has been removed, or was found absent.
#[derive(Debug, PartialEq, Eq)]
pub enum After<T> {
    /// The removal was the command: a failure is reported, success ends it.
    Report,
    /// The removal was housekeeping: whatever came of it, the command ends well.
    Quiet,
    /// The document was saved to `path`: the title is set and the path returned,
    /// whatever came of the removal.
    Saved { path: T },
    /// The document was cleared: the title goes back to that of an untitled
    /// document and the clearing is confirmed, whatever came of the removal.
    Cleared,
    /// The window is about to close: quitting is allowed, whatever came of the
    /// removal.
    Quit,
}

/// What a flow wants of the recovery store once its directory is there.
#[derive(Debug, PartialEq, Eq)]
pub enum DraftOp<T> {
    /// Keep `content` as the draft; blank content means that no draft is kept.
    Save { content: T },
    /// Read the draft.
    Load,
    /// Remove the draft.
    Clear { then: After<T> },
}

/// An action that discards unsaved changes and so stands behind the confirmation
/// gate.
#[derive(Debug, PartialEq, Eq)]
pub enum Guarded<T> {
    /// Open another document over this one.
    Open,
    /// Clear the document; the draft, kept at `draft` if the store could be located,
    /// is removed with it.
    Clear { draft: Option<Draft<T>> },
    /// Quit; the draft, kept at `draft` if the store could be located, is removed on
    /// the way out.
    Quit { draft: Option<Draft<T>> },
}

/// The state of a command in progress: what the host has been asked, and what is
/// remembered for the decision that follows its answer.
#[derive(Debug, PartialEq, Eq)]
pub enum Flow<T> {
    /// The user is asked to confirm `action`.
    Confirming { action: Guarded<T> },
    /// The user is asked whether to recover the draft that was found.
    AskingRecovery,
    /// The user is picking the file to open.
    PickingFile,
    /// The picked file is being read.
    ReadingFile { path: T },
    /// The user is picking where to save `content`.
    PickingLocation { content: T, draft: Option<Draft<T>> },
    /// `content` is being written to `path`.
    WritingFile { path: T, content: T, draft: Option<Draft<T>> },
    /// The window title is being set, after which the command replies `reply`. A
    /// strict flow reports a failure to set the title instead.
    SettingTitle { title: T, reply: Reply<T>, strict: bool },
    /// The host is asked whether the recovery directory is there, before `op` is
    /// carried out.
    CheckingDirectory { location: Draft<T>, op: DraftOp<T> },
    /// The recovery directory is being created.
    CreatingDirectory { location: Draft<T>, op: DraftOp<T> },
    /// The draft is being written.
    WritingDraft { path: T, content: T },
    /// The host is asked whether there is a draft to read.
    LookingForDraft { path: T },
    /// The draft is being read.
    ReadingDraft { path: T },
    /// The host is asked whether there is a draft to remove.
    CheckingDraft { path: T, then: After<T> },
    /// The draft is being removed.
    RemovingDraft { path: T, then: After<T> },
    /// The host is asked whether the primary window is open, before a window called
    /// `label` is created.
    CheckingMainWindow { label: T },
    /// The window called `label` is being created.
    CreatingWindow { label: T },
    /// Close requests of the new window are being put under interception.
    InterceptingClose { label: T },
    /// The process is being ended.
    Exiting,
    /// The command is over.
    Finished { reply: Reply<T> },
}

/// The characters of an optional draft location.
pub open spec fn opt_draft(o: Option<Draft<String>>) -> Option<Draft<Seq<char>>> {
    match o {
        Some(d) => Some(d@),
        None => None,
    }
}

impl View for After<String> {
    type V = After<Seq<char>>;

    open spec fn view(&self) -> After<Seq<char>> {
        match *self {
            After::Report => After::Report,
            After::Quiet => After::Quiet,
            After::Saved { path } => After::Saved { path: path@ },
            After::Cleared => After::Cleared,
            After::Quit => After::Quit,
        }
    }
}

impl View for DraftOp<String> {
    type V = DraftOp<Seq<char>>;

    open spec fn view(&self) -> DraftOp<Seq<char>> {
        match *self {
            DraftOp::Save { content } => DraftOp::Save { content: content@ },
            DraftOp::Load => DraftOp::Load,
            DraftOp::Clear { then } => DraftOp::Clear { then: then@ },
        }
    }
}

impl View for Guarded<String> {
    type V = Guarded<Seq<char>>;

    open spec fn view(&self) -> Guarded<Seq<char>> {
        match *self {
            Guarded::Open => Guarded::Open,
            Guarded::Clear { draft } => Guarded::Clear { draft: opt_draft(draft) },
            Guarded::Quit { draft } => Guarded::Quit { draft: opt_draft(draft) },
        }
    }
}

impl View for Flow<String> {
    type V = Flow<Seq<char>>;

    open spec fn view(&self) -> Flow<Seq<char>> {
        match *self {
            Flow::Confirming { action } => Flow::Confirming { action: action@ },
            Flow::AskingRecovery => Flow::AskingRecovery,
            Flow::PickingFile => Flow::PickingFile,
            Flow::ReadingFile { path } => Flow::ReadingFile { path: path@ },
            Flow::PickingLocation { content, draft } => Flow::PickingLocation {
                content: content@,
                draft: opt_draft(draft),
            },
            Flow::WritingFile { path, content, draft } => Flow::WritingFile {
                path: path@,
                content: content@,
                draft: opt_draft(draft),
            },
            Flow::SettingTitle { title, reply, strict } => Flow::SettingTitle {
                title: title@,
                reply: reply@,
                strict,
            },
            Flow::CheckingDirectory { location, op } => Flow::CheckingDirectory {
                location: location@,
                op: op@,
            },
            Flow::CreatingDirectory { location, op } => Flow::CreatingDirectory {
                location: location@,
                op: op@,
            },
            Flow::WritingDraft { path, content } => Flow::WritingDraft {
                path: path@,
                content: content@,
            },
            Flow::LookingForDraft { path } => Flow::LookingForDraft { path: path@ },
            Flow::ReadingDraft { path } => Flow::ReadingDraft { path: path@ },
            Flow::CheckingDraft { path, then } => Flow::CheckingDraft { path: path@, then: then@ },
            Flow::RemovingDraft { path, then } => Flow::RemovingDraft { path: path@, then: then@ },
            Flow::CheckingMainWindow { label } => Flow::CheckingMainWindow { label: label@ },
            Flow::CreatingWindow { label } => Flow::CreatingWindow { label: label@ },
            Flow::InterceptingClose { label } => Flow::InterceptingClose { label: label@ },
            Flow::Exiting => Flow::Exiting,
            Flow::Finished { reply } => Flow::Finished { reply: reply@ },
        }
    }
}

/// A flow that is over, with `reply`.
pub open spec fn finished(reply: Reply<Seq<char>>) -> Flow<Seq<char>> {
    Flow::Finished { reply }
}

/// A flow that failed: the message is `what`, followed by the host's `reason`.
pub open spec fn failed(what: Seq<char>, reason: Seq<char>) -> Flow<Seq<char>> {
    finished(Reply::Failed(what + reason))
}

/// What follows the removal of a draft. `failure` is what went wrong, if anything
/// did; only a removal that is itself the command reports it.
pub open spec fn after_removal(then: After<Seq<char>>, failure: Option<Seq<char>>) -> Flow<
    Seq<char>,
> {
    match then {
        After::Report => match failure {
            Some(message) => finished(Reply::Failed(message)),
            None => finished(Reply::Unit),
        },
        After::Quiet => finished(Reply::Unit),
        After::Saved { path } => Flow::SettingTitle {
            title: document_title(path),
            reply: Reply::Path(Some(path)),
            strict: false,
        },
        After::Cleared => Flow::SettingTitle {
            title: untitled_title(),
            reply: Reply::Flag(true),
            strict: false,
        },
        After::Quit => finished(Reply::Flag(true)),
    }
}

/// Removing the draft kept at `draft`, and then `then`. Without a store there is
/// no draft: what follows, follows at once.
pub open spec fn clearing(draft: Option<Draft<Seq<char>>>, then: After<Seq<char>>) -> Flow<
    Seq<char>,
> {
    match draft {
        Some(location) => Flow::CheckingDirectory { location, op: DraftOp::Clear { then } },
        None => after_removal(then, Some(NO_DATA_DIR@)),
    }
}

/// How a guarded action begins once it may go ahead.
pub open spec fn proceed(action: Guarded<Seq<char>>) -> Flow<Seq<char>> {
    match action {
        Guarded::Open => Flow::PickingFile,
        Guarded::Clear { draft } => clearing(draft, After::Cleared),
        Guarded::Quit { draft } => clearing(draft, After::Quit),
    }
}

/// What a guarded action replies when the user declines.
pub open spec fn declined(action: Guarded<Seq<char>>) -> Reply<Seq<char>> {
    match action {
        Guarded::Open => Reply::Opened(None),
        Guarded::Clear { .. } => Reply::Flag(false),
        Guarded::Quit { .. } => Reply::Flag(false),
    }
}

/// A guarded action after the confirmation gate: it goes ahead unless the user
/// declined, in which case the command is over and nothing has been touched.
pub open spec fn resolved(action: Guarded<Seq<char>>, outcome: ConfirmationOutcome) -> Flow<
    Seq<char>,
> {
    if outcome.allows() {
        proceed(action)
    } else {
        finished(declined(action))
    }
}

/// A guarded action before the confirmation gate: the user is asked only if there
/// are unsaved changes.
pub open spec fn guarded(has_unsaved_changes: bool, action: Guarded<Seq<char>>) -> Flow<
    Seq<char>,
> {
    if has_unsaved_changes {
        Flow::Confirming { action }
    } else {
        resolved(action, ConfirmationOutcome::NotNeeded)
    }
}

/// What is done with the draft file at `path` once the recovery directory is there.
pub open spec fn begun(op: DraftOp<Seq<char>>, path: Seq<char>) -> Flow<Seq<char>> {
    match op {
        DraftOp::Save { content } => if is_blank(content) {
            Flow::CheckingDraft { path, then: After::Quiet }
        } else {
            Flow::WritingDraft { path, content }
        },
        DraftOp::Load => Flow::LookingForDraft { path },
        DraftOp::Clear { then } => Flow::CheckingDraft { path, then },
    }
}

/// What becomes of `op` when the recovery directory cannot be created.
pub open spec fn without_directory(op: DraftOp<Seq<char>>, message: Seq<char>) -> Flow<
    Seq<char>,
> {
    match op {
        DraftOp::Clear { then } => after_removal(then, Some(message)),
        _ => finished(Reply::Failed(message)),
    }
}

/// What is asked of the user before `action`.
pub open spec fn prompt(action: Guarded<Seq<char>>) -> Request<Seq<char>> {
    match action {
        Guarded::Quit { .. } => Request::Confirm { message: QUIT_MESSAGE@, title: UNSAVED_TITLE@ },
        _ => Request::Confirm { message: DISCARD_MESSAGE@, title: UNSAVED_TITLE@ },
    }
}

/// What the host is asked to do in state `flow`.
pub open spec fn pending(flow: Flow<Seq<char>>) -> Request<Seq<char>> {
    match flow {
        Flow::Confirming { action } => prompt(action),
        Flow::AskingRecovery => Request::Confirm {
            message: RECOVERY_MESSAGE@,
            title: RECOVERY_TITLE@,
        },
        Flow::PickingFile => Request::PickFile,
        Flow::ReadingFile { path } => Request::ReadFile { path },
        Flow::PickingLocation { .. } => Request::PickSaveLocation,
        Flow::WritingFile { path, content, .. } => Request::WriteFile { path, content },
        Flow::SettingTitle { title, .. } => Request::SetTitle { title },
        Flow::CheckingDirectory { location, .. } => Request::FileExists { path: location.dir },
        Flow::CreatingDirectory { location, .. } => Request::CreateDirectory { path: location.dir },
        Flow::WritingDraft { path, content } => Request::WriteFile { path, content },
        Flow::LookingForDraft { path } => Request::FileExists { path },
        Flow::ReadingDraft { path } => Request::ReadFile { path },
        Flow::CheckingDraft { path, .. } => Request::FileExists { path },
        Flow::RemovingDraft { path, .. } => Request::RemoveFile { path },
        Flow::CheckingMainWindow { .. } => Request::WindowExists { label: MAIN_WINDOW@ },
        Flow::CreatingWindow { label } => Request::CreateWindow {
            label,
            url: WINDOW_URL@,
            title: untitled_title(),
            width: WINDOW_WIDTH,
            height: WINDOW_HEIGHT,
        },
        Flow::InterceptingClose { label } => Request::InterceptClose { label },
        Flow::Exiting => Request::Exit { code: 0 },
        Flow::Finished { reply } => Request::Done { reply },
    }
}

/// The state that follows `flow` when the host answers `response`.
pub open spec fn advance(flow: Flow<Seq<char>>, response: Response<Seq<char>>) -> Flow<
    Seq<char>,
> {
    match (flow, response) {
        (Flow::Confirming { action }, Response::Bool(accepted)) => resolved(
            action,
            if accepted {
                ConfirmationOutcome::Confirmed
            } else {
                ConfirmationOutcome::Declined
            },
        ),
        (Flow::AskingRecovery, Response::Bool(accepted)) => finished(Reply::Flag(accepted)),
        (Flow::PickingFile, Response::Path(Some(path))) => Flow::ReadingFile { path },
        (Flow::PickingFile, Response::Path(None)) => finished(Reply::Opened(None)),
        (Flow::ReadingFile { path }, Response::Text(content)) => Flow::SettingTitle {
            title: document_title(path),
            reply: Reply::Opened(Some((content, path))),
            strict: false,
        },
        (Flow::ReadingFile { .. }, Response::Failed(reason)) => failed(
            "Failed to read file: "@,
            reason,
        ),
        (Flow::PickingLocation { content, draft }, Response::Path(Some(path))) => {
            Flow::WritingFile { path, content, draft }
        },
        (Flow::PickingLocation { .. }, Response::Path(None)) => finished(Reply::Path(None)),
        (Flow::WritingFile { path, draft, .. }, Response::Done) => clearing(
            draft,
            After::Saved { path },
        ),
        (Flow::WritingFile { .. }, Response::Failed(reason)) => failed(
            "Failed to save file: "@,
            reason,
        ),
        (Flow::SettingTitle { reply, .. }, Response::Done) => finished(reply),
        (Flow::SettingTitle { reply, strict, .. }, Response::Failed(reason)) => if strict {
            finished(Reply::Failed(reason))
        } else {
            finished(reply)
        },
        (Flow::CheckingDirectory { location, op }, Response::Bool(found)) => if found {
            begun(op, location.path)
        } else {
            Flow::CreatingDirectory { location, op }
        },
        (Flow::CreatingDirectory { location, op }, Response::Done) => begun(op, location.path),
        (Flow::CreatingDirectory { op, .. }, Response::Failed(reason)) => without_directory(
            op,
            "Failed to create recovery directory: "@ + reason,
        ),
        (Flow::WritingDraft { .. }, Response::Done) => finished(Reply::Unit),
        (Flow::WritingDraft { .. }, Response::Failed(reason)) => failed(
            "Failed to auto-save draft: "@,
            reason,
        ),
        (Flow::LookingForDraft { path }, Response::Bool(found)) => if found {
            Flow::ReadingDraft { path }
        } else {
            finished(Reply::Content(None))
        },
        (Flow::ReadingDraft { .. }, Response::Text(content)) => if is_blank(content) {
            finished(Reply::Content(None))
        } else {
            finished(Reply::Content(Some(content)))
        },
        (Flow::ReadingDraft { .. }, Response::Failed(_)) => finished(Reply::Content(None)),
        (Flow::CheckingDraft { path, then }, Response::Bool(found)) => if found {
            Flow::RemovingDraft { path, then }
        } else {
            after_removal(then, None)
        },
        (Flow::RemovingDraft { then, .. }, Response::Done) => after_removal(then, None),
        (Flow::RemovingDraft { then, .. }, Response::Failed(reason)) => after_removal(
            then,
            Some("Failed to clear recovery file: "@ + reason),
        ),
        (Flow::CheckingMainWindow { label }, Response::Bool(open)) => if open {
            Flow::CreatingWindow { label }
        } else {
            finished(Reply::Failed("Main window not found"@))
        },
        (Flow::CreatingWindow { label }, Response::Done) => Flow::InterceptingClose { label },
        (Flow::CreatingWindow { .. }, Response::Failed(reason)) => finished(Reply::Failed(reason)),
        (Flow::InterceptingClose { .. }, Response::Done) => finished(Reply::Unit),
        (Flow::InterceptingClose { .. }, Response::Failed(_)) => finished(Reply::Unit),
        (Flow::Exiting, Response::Done) => finished(Reply::Unit),
        (flow, _) => flow,
    }
}

/// `what`, followed by `reason`.
fn explain(what: &str, reason: &str) -> (message: String)
    ensures
        message@ == what@ + reason@,
{
    what.to_owned().concat(reason)
}

/// The flow that is over, with `reply`.
fn finish(reply: Reply<String>) -> (next: Flow<String>)
    ensures
        next@ == finished(reply@),
{
    Flow::Finished { reply }
}

/// The flow that failed at `what`, for the host's `reason`.
fn fail(what: &str, reason: String) -> (next: Flow<String>)
    ensures
        next@ == failed(what@, reason@),
{
    finish(Reply::Failed(explain(what, reason.as_str())))
}

/// A copy of an optional text.
fn copy_text(o: &Option<String>) -> (r: Option<String>)
    ensures
        opt_text(r) == opt_text(*o),
{
    match o {
        Some(s) => Some(s.clone()),
        None => None,
    }
}

/// A copy of a reply.
fn copy_reply(reply: &Reply<String>) -> (r: Reply<String>)
    ensures
        r@ == reply@,
{
    match reply {
        Reply::Unit => Reply::Unit,
        Reply::Flag(b) => Reply::Flag(*b),
        Reply::Path(p) => Reply::Path(copy_text(p)),
        Reply::Opened(None) => Reply::Opened(None),
        Reply::Opened(Some((content, path))) => Reply::Opened(
            Some((content.clone(), path.clone())),
        ),
        Reply::Content(c) => Reply::Content(copy_text(c)),
        Reply::Failed(e) => Reply::Failed(e.clone()),
    }
}

/// What follows the removal of a draft, or the failure to remove it.
fn settle(then: After<String>, failure: Option<String>) -> (next: Flow<String>)
    ensures
        next@ == after_removal(then@, opt_text(failure)),
{
    match then {
        After::Report => match failure {
            Some(message) => finish(Reply::Failed(message)),
            None => finish(Reply::Unit),
        },
        After::Quiet => finish(Reply::Unit),
        After::Saved { path } => {
            let title = title_for_path(path.as_str());
            Flow::SettingTitle { title, reply: Reply::Path(Some(path)), strict: false }
        },
        After::Cleared => Flow::SettingTitle {
            title: render_title(None, false),
            reply: Reply::Flag(true),
            strict: false,
        },
        After::Quit => finish(Reply::Flag(true)),
    }
}

/// Starts removing the draft kept at `draft`, with `then` to follow.
fn clear(draft: Option<Draft<String>>, then: After<String>) -> (next: Flow<String>)
    ensures
        next@ == clearing(opt_draft(draft), then@),
{
    match draft {
        Some(location) => Flow::CheckingDirectory { location, op: DraftOp::Clear { then } },
        None => settle(then, Some(NO_DATA_DIR.to_owned())),
    }
}

/// Starts a guarded action that may go ahead.
fn go_ahead(action: Guarded<String>) -> (next: Flow<String>)
    ensures
        next@ == proceed(action@),
{
    match action {
        Guarded::Open => Flow::PickingFile,
        Guarded::Clear { draft } => clear(draft, After::Cleared),
        Guarded::Quit { draft } => clear(draft, After::Quit),
    }
}

/// The reply of a guarded action that the user declined.
fn refuse(action: Guarded<String>) -> (reply: Reply<String>)
    ensures
        reply@ == declined(action@),
{
    match action {
        Guarded::Open => Reply::Opened(None),
        Guarded::Clear { .. } => Reply::Flag(false),
        Guarded::Quit { .. } => Reply::Flag(false),
    }
}

/// Takes a guarded action on, or ends it, as the confirmation came out.
fn resolve(action: Guarded<String>, outcome: ConfirmationOutcome) -> (next: Flow<String>)
    ensures
        next@ == resolved(action@, outcome),
{
    if outcome.may_proceed() {
        go_ahead(action)
    } else {
        finish(refuse(action))
    }
}

/// Starts `op` on the draft file at `path`, the recovery directory being there.
fn begin(op: DraftOp<String>, path: String) -> (next: Flow<String>)
    ensures
        next@ == begun(op@, path@),
{
    match op {
        DraftOp::Save { content } => if blank(content.as_str()) {
            Flow::CheckingDraft { path, then: After::Quiet }
        } else {
            Flow::WritingDraft { path, content }
        },
        DraftOp::Load => Flow::LookingForDraft { path },
        DraftOp::Clear { then } => Flow::CheckingDraft { path, then },
    }
}

/// Ends `op` for want of a recovery directory.
fn give_up(op: DraftOp<String>, message: String) -> (next: Flow<String>)
    ensures
        next@ == without_directory(op@, message@),
{
    match op {
        DraftOp::Clear { then } => settle(then, Some(message)),
        _ => finish(Reply::Failed(message)),
    }
}

/// The question that stands before `action`.
fn ask(action: &Guarded<String>) -> (request: Request<String>)
    ensures
        request@ == prompt(action@),
{
    match action {
        Guarded::Quit { .. } => Request::Confirm {
            message: QUIT_MESSAGE.to_owned(),
            title: UNSAVED_TITLE.to_owned(),
        },
        _ => Request::Confirm {
            message: DISCARD_MESSAGE.to_owned(),
            title: UNSAVED_TITLE.to_owned(),
        },
    }
}

impl Flow<String> {
    /// A guarded action at the confirmation gate: with unsaved changes the user is
    /// asked first, without them the action goes ahead at once.
    pub fn guard(has_unsaved_changes: bool, action: Guarded<String>) -> (flow: Flow<String>)
        ensures
            flow@ == guarded(has_unsaved_changes, action@),
            !has_unsaved_changes ==> flow@ == proceed(action@),
    {
        if has_unsaved_changes {
            Flow::Confirming { action }
        } else {
            resolve(action, ConfirmationOutcome::of(false, false))
        }
    }

    /// A flow on the recovery store: `op` on the draft kept at `draft`, or the
    /// failure that `draft` is when the store could not be located.
    pub fn on_draft(draft: Result<Draft<String>, String>, op: DraftOp<String>) -> (flow: Flow<
        String,
    >)
        ensures
            flow@ == match draft {
                Ok(location) => Flow::CheckingDirectory { location: location@, op: op@ },
                Err(message) => without_directory(op@, message@),
            },
    {
        match draft {
            Ok(location) => Flow::CheckingDirectory { location, op },
            Err(message) => give_up(op, message),
        }
    }

    /// What the host is asked to do now.
    pub fn request(&self) -> (request: Request<String>)
        ensures
            request@ == pending(self@),
    {
        match self {
            Flow::Confirming { action } => ask(action),
            Flow::AskingRecovery => Request::Confirm {
                message: RECOVERY_MESSAGE.to_owned(),
                title: RECOVERY_TITLE.to_owned(),
            },
            Flow::PickingFile => Request::PickFile,
            Flow::ReadingFile { path } => Request::ReadFile { path: path.clone() },
            Flow::PickingLocation { .. } => Request::PickSaveLocation,
            Flow::WritingFile { path, content, .. } => Request::WriteFile {
                path: path.clone(),
                content: content.clone(),
            },
            Flow::SettingTitle { title, .. } => Request::SetTitle { title: title.clone() },
            Flow::CheckingDirectory { location, .. } => Request::FileExists {
                path: location.dir.clone(),
            },
            Flow::CreatingDirectory { location, .. } => Request::CreateDirectory {
                path: location.dir.clone(),
            },
            Flow::WritingDraft { path, content } => Request::WriteFile {
                path: path.clone(),
                content: content.clone(),
            },
            Flow::LookingForDraft { path } => Request::FileExists { path: path.clone() },
            Flow::ReadingDraft { path } => Request::ReadFile { path: path.clone() },
            Flow::CheckingDraft { path, .. } => Request::FileExists { path: path.clone() },
            Flow::RemovingDraft { path, .. } => Request::RemoveFile { path: path.clone() },
            Flow::CheckingMainWindow { .. } => Request::WindowExists {
                label: MAIN_WINDOW.to_owned(),
            },
            Flow::CreatingWindow { label } => Request::CreateWindow {
                label: label.clone(),
                url: WINDOW_URL.to_owned(),
                title: render_title(None, false),
                width: WINDOW_WIDTH,
                height: WINDOW_HEIGHT,
            },
            Flow::InterceptingClose { label } => Request::InterceptClose { label: label.clone() },
            Flow::Exiting => Request::Exit { code: 0 },
            Flow::Finished { reply } => Request::Done { reply: copy_reply(reply) },
        }
    }

    /// The state that follows when the host answers `response`. An answer that does
    /// not fit the pending request changes nothing.
    pub fn step(self, response: Response<String>) -> (next: Flow<String>)
        ensures
            next@ == advance(self@, response@),
    {
        match self {
            Flow::Confirming { action } => match response {
                Response::Bool(accepted) => {
                    resolve(action, ConfirmationOutcome::of(true, accepted))
                },
                _ => Flow::Confirming { action },
            },
            Flow::AskingRecovery => match response {
                Response::Bool(accepted) => finish(Reply::Flag(accepted)),
                _ => Flow::AskingRecovery,
            },
            Flow::PickingFile => match response {
                Response::Path(Some(path)) => Flow::ReadingFile { path },
                Response::Path(None) => finish(Reply::Opened(None)),
                _ => Flow::PickingFile,
            },
            Flow::ReadingFile { path } => match response {
                Response::Text(content) => {
                    let title = title_for_path(path.as_str());
                    Flow::SettingTitle {
                        title,
                        reply: Reply::Opened(Some((content, path))),
                        strict: false,
                    }
                },
                Response::Failed(reason) => fail("Failed to read file: ", reason),
                _ => Flow::ReadingFile { path },
            },
            Flow::PickingLocation { content, draft } => match response {
                Response::Path(Some(path)) => Flow::WritingFile { path, content, draft },
                Response::Path(None) => finish(Reply::Path(None)),
                _ => Flow::PickingLocation { content, draft },
            },
            Flow::WritingFile { path, content, draft } => match response {
                Response::Done => clear(draft, After::Saved { path }),
                Response::Failed(reason) => fail("Failed to save file: ", reason),
                _ => Flow::WritingFile { path, content, draft },
            },
            Flow::SettingTitle { title, reply, strict } => match response {
                Response::Done => finish(reply),
                Response::Failed(reason) => if strict {
                    finish(Reply::Failed(reason))
                } else {
                    finish(reply)
                },
                _ => Flow::SettingTitle { title, reply, strict },
            },
            Flow::CheckingDirectory { location, op } => match response {
                Response::Bool(found) => if found {
                    begin(op, location.path)
                } else {
                    Flow::CreatingDirectory { location, op }
                },
                _ => Flow::CheckingDirectory { location, op },
            },
            Flow::CreatingDirectory { location, op } => match response {
                Response::Done => begin(op, location.path),
                Response::Failed(reason) => give_up(
                    op,
                    explain("Failed to create recovery directory: ", reason.as_str()),
                ),
                _ => Flow::CreatingDirectory { location, op },
            },
            Flow::WritingDraft { path, content } => match response {
                Response::Done => finish(Reply::Unit),
                Response::Failed(reason) => fail("Failed to auto-save draft: ", reason),
                _ => Flow::WritingDraft { path, content },
            },
            Flow::LookingForDraft { path } => match response {
                Response::Bool(found) => if found {
                    Flow::ReadingDraft { path }
                } else {
                    finish(Reply::Content(None))
                },
                _ => Flow::LookingForDraft { path },
            },
            Flow::ReadingDraft { path } => match response {
                Response::Text(content) => if blank(content.as_str()) {
                    finish(Reply::Content(None))
                } else {
                    finish(Reply::Content(Some(content)))
                },
                Response::Failed(_) => finish(Reply::Content(None)),
                _ => Flow::ReadingDraft { path },
            },
            Flow::CheckingDraft { path, then } => match response {
                Response::Bool(found) => if found {
                    Flow::RemovingDraft { path, then }
                } else {
                    settle(then, None)
                },
                _ => Flow::CheckingDraft { path, then },
            },
            Flow::RemovingDraft { path, then } => match response {
                Response::Done => settle(then, None),
                Response::Failed(reason) => settle(
                    then,
                    Some(explain("Failed to clear recovery file: ", reason.as_str())),
                ),
                _ => Flow::RemovingDraft { path, then },
            },
            Flow::CheckingMainWindow { label } => match response {
                Response::Bool(open) => if open {
                    Flow::CreatingWindow { label }
                } else {
                    finish(Reply::Failed("Main window not found".to_owned()))
                },
                _ => Flow::CheckingMainWindow { label },
            },
            Flow::CreatingWindow { label } => match response {
                Response::Done => Flow::InterceptingClose { label },
                Response::Failed(reason) => finish(Reply::Failed(reason)),
                _ => Flow::CreatingWindow { label },
            },
            Flow::InterceptingClose { label } => match response {
                Response::Done => finish(Reply::Unit),
                Response::Failed(_) => finish(Reply::Unit),
                _ => Flow::InterceptingClose { label },
            },
            Flow::Exiting => match response {
                Response::Done => finish(Reply::Unit),
                _ => Flow::Exiting,
            },
            Flow::Finished { reply } => Flow::Finished { reply },
        }
    }
}

} // verus!
