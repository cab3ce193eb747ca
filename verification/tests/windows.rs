use jot::gate::ConfirmationOutcome;
use jot::lifecycle::{react, Reaction, WindowEvent, WindowPhase, QUIT_REQUESTED};
use jot::session::DocumentSession;

#[test]
fn no_unsaved_changes_need_no_confirmation() {
    for accepted in [true, false] {
        let outcome = ConfirmationOutcome::of(false, accepted);
        assert_eq!(outcome, ConfirmationOutcome::NotNeeded);
        assert!(outcome.may_proceed());
    }
}

#[test]
fn unsaved_changes_go_by_the_answer() {
    assert_eq!(ConfirmationOutcome::of(true, true), ConfirmationOutcome::Confirmed);
    assert_eq!(ConfirmationOutcome::of(true, false), ConfirmationOutcome::Declined);
    assert!(ConfirmationOutcome::Confirmed.may_proceed());
    assert!(!ConfirmationOutcome::Declined.may_proceed());
}

#[test]
fn close_request_is_intercepted() {
    assert_eq!(react(WindowEvent::CloseRequested), Reaction::Intercept);
    assert_eq!(QUIT_REQUESTED, "quit-requested");
}

#[test]
fn other_events_pass() {
    assert_eq!(react(WindowEvent::Other), Reaction::Pass);
    assert_eq!(react(WindowEvent::QuitAnswered { allowed: true }), Reaction::Pass);
    assert_eq!(react(WindowEvent::QuitAnswered { allowed: false }), Reaction::Pass);
}

#[test]
fn close_request_cancelled_reopens_the_window() {
    let phase = WindowPhase::Open.after(WindowEvent::CloseRequested);
    assert_eq!(phase, WindowPhase::CloseRequested);
    assert_eq!(phase.after(WindowEvent::Other), WindowPhase::CloseRequested);
    assert_eq!(phase.after(WindowEvent::CloseRequested), WindowPhase::CloseRequested);
    assert_eq!(phase.after(WindowEvent::QuitAnswered { allowed: false }), WindowPhase::Open);
}

#[test]
fn close_request_confirmed_closes_the_window() {
    let phase = WindowPhase::Open
        .after(WindowEvent::CloseRequested)
        .after(WindowEvent::QuitAnswered { allowed: true });
    assert_eq!(phase, WindowPhase::Closing);
    for event in [
        WindowEvent::CloseRequested,
        WindowEvent::QuitAnswered { allowed: false },
        WindowEvent::QuitAnswered { allowed: true },
        WindowEvent::Other,
    ] {
        assert_eq!(phase.after(event), WindowPhase::Closing);
    }
}

#[test]
fn open_window_stays_open_until_asked() {
    assert_eq!(WindowPhase::Open.after(WindowEvent::Other), WindowPhase::Open);
    assert_eq!(
        WindowPhase::Open.after(WindowEvent::QuitAnswered { allowed: false }),
        WindowPhase::Open
    );
    assert_eq!(
        WindowPhase::Open.after(WindowEvent::QuitAnswered { allowed: true }),
        WindowPhase::Closing
    );
}

#[test]
fn new_session_is_untitled() {
    let session = DocumentSession::new("main".to_string());
    assert_eq!(session.window_identity, "main");
    assert_eq!(session.file_path, None);
    assert!(!session.is_modified);
    assert_eq!(session.title(), "Untitled - Jot");
}

#[test]
fn session_follows_open_edit_save_and_clear() {
    let mut session = DocumentSession::new("main".to_string());
    session.set_modified(true);
    assert_eq!(session.title(), "*Untitled - Jot");

    session.on_open("/tmp/a.txt".to_string());
    assert_eq!(session.file_path.as_deref(), Some("/tmp/a.txt"));
    assert!(!session.is_modified);
    assert_eq!(session.title(), "a.txt - Jot");

    session.set_modified(true);
    assert_eq!(session.title(), "*a.txt - Jot");

    session.on_save(None);
    assert_eq!(session.file_path.as_deref(), Some("/tmp/a.txt"));
    assert!(session.is_modified);

    session.on_save(Some("/tmp/a.txt".to_string()));
    assert!(!session.is_modified);
    assert_eq!(session.title(), "a.txt - Jot");

    session.set_modified(true);
    session.on_save_as(Some("/tmp/b.txt".to_string()));
    assert_eq!(session.file_path.as_deref(), Some("/tmp/b.txt"));
    assert_eq!(session.title(), "b.txt - Jot");
    session.on_save_as(None);
    assert_eq!(session.file_path.as_deref(), Some("/tmp/b.txt"));

    session.set_modified(true);
    session.on_clear(false);
    assert_eq!(session.title(), "*b.txt - Jot");
    session.on_clear(true);
    assert_eq!(session.file_path, None);
    assert!(!session.is_modified);
    assert_eq!(session.title(), "Untitled - Jot");
    assert_eq!(session.window_identity, "main");
}
