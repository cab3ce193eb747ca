//! What the flows achieve, end to end.
//!
//! The flows are run here against a model of a host that works: a file system
//! that never fails where it could succeed, and a user who answers every dialog.
//! The laws of this module say what then holds of the replies and of the files:
//! that a draft written is the draft read, that nothing is asked or touched when
//! it need not be, that a saved document leaves no draft behind.

use crate::commands::{
    auto_save_draft_flow, clear_document_flow, clear_recovery_file_flow, draft_flow,
    get_recovery_content_flow, handle_quit_request_flow, new_file_flow, save_file_flow,
    window_label_at,
};
use crate::flow::{
    advance, declined, guarded, pending, proceed, DraftOp, Flow, Guarded, MAIN_WINDOW,
};
use crate::host::{Reply, Request, Response};
use crate::recovery::recovery_file_path;
use crate::text::is_blank;
use crate::title::{document_title, untitled_title};
use vstd::prelude::*;

verus! {

/// The user in front of the dialogs.
pub struct User {
    /// What the user answers to a yes/no question.
    pub accepts: bool,
    /// What the user chooses in a file dialog; `None` cancels it.
    pub picks: Option<Seq<char>>,
}

/// The world a flow acts on.
pub struct World {
    /// The files on disk: path to content.
    pub files: Map<Seq<char>, Seq<char>>,
    /// The labels of the open windows.
    pub windows: Set<Seq<char>>,
    /// The title of the window the command came from.
    pub title: Seq<char>,
    /// The user.
    pub user: User,
}

/// What the host says of a file that is not there.
pub open spec fn not_found() -> Seq<char> {
    "No such file or directory"@
}

/// What a working host answers to `request`, and the world it leaves.
pub open spec fn answer(world: World, request: Request<Seq<char>>) -> (Response<Seq<char>>, World) {
    match request {
        Request::Confirm { .. } => (Response::Bool(world.user.accepts), world),
        Request::PickFile => (Response::Path(world.user.picks), world),
        Request::PickSaveLocation => (Response::Path(world.user.picks), world),
        Request::ReadFile { path } => if world.files.contains_key(path) {
            (Response::Text(world.files[path]), world)
        } else {
            (Response::Failed(not_found()), world)
        },
        Request::WriteFile { path, content } => (
            Response::Done,
            World { files: world.files.insert(path, content), ..world },
        ),
        Request::RemoveFile { path } => if world.files.contains_key(path) {
            (Response::Done, World { files: world.files.remove(path), ..world })
        } else {
            (Response::Failed(not_found()), world)
        },
        Request::FileExists { path } => (Response::Bool(world.files.contains_key(path)), world),
        Request::CreateDirectory { .. } => (Response::Done, world),
        Request::SetTitle { title } => (Response::Done, World { title, ..world }),
        Request::WindowExists { label } => (Response::Bool(world.windows.contains(label)), world),
        Request::CreateWindow { label, .. } => (
            Response::Done,
            World { windows: world.windows.insert(label), ..world },
        ),
        Request::InterceptClose { .. } => (Response::Done, world),
        Request::Exit { .. } => (Response::Done, world),
        Request::Done { .. } => (Response::Done, world),
    }
}

/// An upper bound on the requests a flow still makes.
pub open spec fn steps_left(flow: Flow<Seq<char>>) -> nat {
    match flow {
        Flow::Finished { .. } => 0,
        Flow::SettingTitle { .. } => 1,
        Flow::Exiting => 1,
        Flow::InterceptingClose { .. } => 1,
        Flow::WritingDraft { .. } => 1,
        Flow::ReadingDraft { .. } => 1,
        Flow::AskingRecovery => 1,
        Flow::RemovingDraft { .. } => 2,
        Flow::CreatingWindow { .. } => 2,
        Flow::LookingForDraft { .. } => 2,
        Flow::ReadingFile { .. } => 2,
        Flow::CheckingDraft { .. } => 3,
        Flow::CheckingMainWindow { .. } => 3,
        Flow::PickingFile => 3,
        Flow::CreatingDirectory { .. } => 4,
        Flow::CheckingDirectory { .. } => 5,
        Flow::WritingFile { .. } => 6,
        Flow::PickingLocation { .. } => 7,
        Flow::Confirming { .. } => 8,
    }
}

/// Every answer of a working host takes the flow forward.
pub proof fn lemma_flow_progresses(flow: Flow<Seq<char>>, world: World)
    requires
        !(flow is Finished),
    ensures
        steps_left(advance(flow, answer(world, pending(flow)).0)) < steps_left(flow),
{
}

/// The flow run to its end against a working host: the reply, and the world it
/// leaves.
pub open spec fn run(flow: Flow<Seq<char>>, world: World) -> (Reply<Seq<char>>, World)
    decreases steps_left(flow),
{
    match flow {
        Flow::Finished { reply } => (reply, world),
        _ => {
            let (response, next_world) = answer(world, pending(flow));
            run(advance(flow, response), next_world)
        },
    }
}

/// The state of `flow` after the host has given `responses`, in this order.
pub open spec fn replay(flow: Flow<Seq<char>>, responses: Seq<Response<Seq<char>>>) -> Flow<
    Seq<char>,
>
    decreases responses.len(),
{
    if responses.len() == 0 {
        flow
    } else {
        advance(replay(flow, responses.drop_last()), responses.last())
    }
}

/// Whether the flow is at a point where the user is asked a yes/no question.
pub open spec fn asks_user(flow: Flow<Seq<char>>) -> bool {
    pending(flow) is Confirm
}

/// Without unsaved changes the confirmation gate is passed without a question, and
/// no question follows: whatever the host answers, the flow never asks the user to
/// confirm.
pub proof fn lemma_unmodified_is_never_asked(
    action: Guarded<Seq<char>>,
    responses: Seq<Response<Seq<char>>>,
)
    ensures
        guarded(false, action) == proceed(action),
        !asks_user(replay(guarded(false, action), responses)),
    decreases responses.len(),
{
    if responses.len() > 0 {
        lemma_unmodified_is_never_asked(action, responses.drop_last());
    }
}

/// A declined action is an action that did not happen: the reply is the refusal,
/// and the world is as it was, drafts included.
pub proof fn lemma_declined_touches_nothing(action: Guarded<Seq<char>>, world: World)
    requires
        !world.user.accepts,
    ensures
        run(guarded(true, action), world) == (declined(action), world),
{
    reveal_with_fuel(run, 3);
}

/// Blank content never persists as a draft: once a blank text has been saved for
/// a window, the empty text for one, no draft is recovered for it, whatever was
/// on disk before.
pub proof fn lemma_blank_draft_is_not_kept(
    data_dir: Option<Seq<char>>,
    label: Seq<char>,
    content: Seq<char>,
    world: World,
)
    requires
        is_blank(content),
    ensures
        ({
            let saved = run(auto_save_draft_flow(data_dir, label, content), world);
            let loaded = run(get_recovery_content_flow(data_dir, label), saved.1);
            &&& !(loaded.0 matches Reply::Content(Some(_)))
            &&& data_dir is Some ==> saved.0 == Reply::<Seq<char>>::Unit && loaded.0
                == Reply::<Seq<char>>::Content(None)
        }),
{
    reveal_with_fuel(run, 6);
}

/// The empty text is blank, so it never persists as a draft.
pub proof fn lemma_empty_draft_is_not_kept(
    data_dir: Option<Seq<char>>,
    label: Seq<char>,
    world: World,
)
    ensures
        ({
            let saved = run(auto_save_draft_flow(data_dir, label, Seq::empty()), world);
            let loaded = run(get_recovery_content_flow(data_dir, label), saved.1);
            !(loaded.0 matches Reply::Content(Some(_)))
        }),
{
    lemma_blank_draft_is_not_kept(data_dir, label, Seq::empty(), world);
}

/// A draft that is saved is the draft that is recovered, character for character,
/// provided it is not blank: a later launch finds what the last save left, with
/// nothing in between to clear it.
pub proof fn lemma_draft_round_trip(
    data_dir: Seq<char>,
    label: Seq<char>,
    content: Seq<char>,
    world: World,
)
    requires
        !is_blank(content),
    ensures
        ({
            let saved = run(auto_save_draft_flow(Some(data_dir), label, content), world);
            let loaded = run(get_recovery_content_flow(Some(data_dir), label), saved.1);
            &&& saved.0 == Reply::<Seq<char>>::Unit
            &&& loaded.0 == Reply::Content(Some(content))
        }),
{
    reveal_with_fuel(run, 6);
}

/// Clearing a draft is idempotent: the first clearing succeeds and leaves no draft
/// file, and a second one succeeds as well and changes nothing.
pub proof fn lemma_clear_is_idempotent(data_dir: Seq<char>, label: Seq<char>, world: World)
    ensures
        ({
            let once = run(clear_recovery_file_flow(Some(data_dir), label), world);
            let twice = run(clear_recovery_file_flow(Some(data_dir), label), once.1);
            &&& once.0 == Reply::<Seq<char>>::Unit
            &&& twice.0 == Reply::<Seq<char>>::Unit
            &&& twice.1 == once.1
            &&& recovery_file_path(Some(data_dir), label) matches Ok(path)
            &&& !once.1.files.contains_key(path)
        }),
{
    reveal_with_fuel(run, 6);
}

/// A document saved where the user chose is on disk with exactly its content, the
/// window is titled after it, and its window has no draft left to recover. The
/// one place the user must not choose is the draft file itself.
pub proof fn lemma_saved_document_leaves_no_draft(
    data_dir: Seq<char>,
    label: Seq<char>,
    content: Seq<char>,
    target: Seq<char>,
    world: World,
)
    requires
        world.user.picks == Some(target),
        recovery_file_path(Some(data_dir), label) != Ok::<Seq<char>, Seq<char>>(target),
    ensures
        ({
            let saved = run(save_file_flow(Some(data_dir), label, None, content), world);
            let loaded = run(get_recovery_content_flow(Some(data_dir), label), saved.1);
            &&& saved.0 == Reply::Path(Some(target))
            &&& saved.1.files.contains_key(target)
            &&& saved.1.files[target] == content
            &&& saved.1.title == document_title(target)
            &&& loaded.0 == Reply::<Seq<char>>::Content(None)
        }),
{
    reveal_with_fuel(run, 9);
}

/// One window, one draft: whatever a command does on the draft of a window, every
/// other file is as it was.
pub proof fn lemma_draft_commands_touch_one_file(
    data_dir: Option<Seq<char>>,
    label: Seq<char>,
    op: DraftOp<Seq<char>>,
    other: Seq<char>,
    world: World,
)
    requires
        recovery_file_path(data_dir, label) != Ok::<Seq<char>, Seq<char>>(other),
    ensures
        ({
            let after = run(draft_flow(data_dir, label, op), world).1;
            &&& after.files.contains_key(other) == world.files.contains_key(other)
            &&& after.files[other] == world.files[other]
        }),
{
    reveal_with_fuel(run, 7);
}

/// A cleared document leaves no draft behind: when there are no unsaved changes,
/// or the user accepts to lose them, the clearing goes ahead, the window is titled
/// as an untitled document, and the draft is gone, so that the discarded text is
/// not offered for recovery at the next launch.
pub proof fn lemma_cleared_document_leaves_no_draft(
    data_dir: Seq<char>,
    label: Seq<char>,
    has_unsaved_changes: bool,
    world: World,
)
    requires
        !has_unsaved_changes || world.user.accepts,
    ensures
        ({
            let cleared = run(
                clear_document_flow(Some(data_dir), label, has_unsaved_changes),
                world,
            );
            let loaded = run(get_recovery_content_flow(Some(data_dir), label), cleared.1);
            &&& cleared.0 == Reply::<Seq<char>>::Flag(true)
            &&& cleared.1.title == untitled_title()
            &&& recovery_file_path(Some(data_dir), label) matches Ok(path)
            &&& !cleared.1.files.contains_key(path)
            &&& loaded.0 == Reply::<Seq<char>>::Content(None)
        }),
{
    reveal_with_fuel(run, 8);
}

/// A window that may close leaves no draft behind: when there are no unsaved
/// changes, or the user accepts to lose them, quitting is allowed and the draft is
/// gone.
pub proof fn lemma_quit_leaves_no_draft(
    data_dir: Seq<char>,
    label: Seq<char>,
    has_unsaved_changes: bool,
    world: World,
)
    requires
        !has_unsaved_changes || world.user.accepts,
    ensures
        ({
            let quit = run(
                handle_quit_request_flow(Some(data_dir), label, has_unsaved_changes),
                world,
            );
            &&& quit.0 == Reply::<Seq<char>>::Flag(true)
            &&& recovery_file_path(Some(data_dir), label) matches Ok(path)
            &&& !quit.1.files.contains_key(path)
        }),
{
    reveal_with_fuel(run, 7);
}

/// A new window needs the primary window: with it, the window called after the
/// time is opened and nothing else changes; without it, the command fails and
/// nothing changes at all.
pub proof fn lemma_new_window_needs_the_primary(now_millis: nat, world: World)
    ensures
        ({
            let (reply, after) = run(new_file_flow(now_millis), world);
            if world.windows.contains(MAIN_WINDOW@) {
                &&& reply == Reply::<Seq<char>>::Unit
                &&& after == (World {
                    windows: world.windows.insert(window_label_at(now_millis)),
                    ..world
                })
            } else {
                &&& reply == Reply::Failed("Main window not found"@)
                &&& after == world
            }
        }),
{
    reveal_with_fuel(run, 5);
}

} // verus!
