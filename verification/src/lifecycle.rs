//! The life of a window, from the first request to close it to the moment it may
//! go. A close request never closes a window by itself: it is suppressed, and the
//! presentation layer, which knows whether there are unsaved changes, is told
//! that the user wants to quit. Only its answer lets the window go.

use vstd::prelude::*;

verus! {

/// The name of the event that tells the presentation layer of a close request.
pub const QUIT_REQUESTED: &'static str = "quit-requested";

/// Where a window stands.
#[derive(Debug, Clone, Copy, PartialEq, Eq, Structural)]
pub enum WindowPhase {
    /// The window is open and nobody has asked to close it.
    Open,
    /// The user asked to close the window; the answer is pending.
    CloseRequested,
    /// Quitting was allowed: the window is on its way out.
    Closing,
}

/// What happens to a window.
#[derive(Debug, Clone, Copy, PartialEq, Eq, Structural)]
pub enum WindowEvent {
    /// The operating system asks to close the window.
    CloseRequested,
    /// The quit request was answered: quitting is allowed, or it is not.
    QuitAnswered { allowed: bool },
    /// Anything else.
    Other,
}

/// What the controller does about an event.
#[derive(Debug, Clone, Copy, PartialEq, Eq, Structural)]
pub enum Reaction {
    /// Nothing: the event takes its course.
    Pass,
    /// The close is suppressed, and the event [`QUIT_REQUESTED`] is emitted to the
    /// window.
    Intercept,
}

/// The reaction to `event`: a close request is intercepted, every time, and
/// nothing else is.
pub open spec fn reaction_to(event: WindowEvent) -> Reaction {
    if event == WindowEvent::CloseRequested {
        Reaction::Intercept
    } else {
        Reaction::Pass
    }
}

/// The phase that follows `phase` when `event` happens. A window that is closing
/// stays so. A close request puts the window in wait of an answer. The answer lets
/// it go or puts it back to open.
pub open spec fn phase_after(phase: WindowPhase, event: WindowEvent) -> WindowPhase {
    match (phase, event) {
        (WindowPhase::Closing, _) => WindowPhase::Closing,
        (_, WindowEvent::CloseRequested) => WindowPhase::CloseRequested,
        (_, WindowEvent::QuitAnswered { allowed }) => if allowed {
            WindowPhase::Closing
        } else {
            WindowPhase::Open
        },
        (phase, WindowEvent::Other) => phase,
    }
}

/// Decides what to do about `event`.
pub fn react(event: WindowEvent) -> (reaction: Reaction)
    ensures
        reaction == reaction_to(event),
        event == WindowEvent::CloseRequested <==> reaction == Reaction::Intercept,
{
    match event {
        WindowEvent::CloseRequested => Reaction::Intercept,
        _ => Reaction::Pass,
    }
}

impl WindowPhase {
    /// The phase of the window after `event`.
    pub fn after(self, event: WindowEvent) -> (next: WindowPhase)
        ensures
            next == phase_after(self, event),
            next == WindowPhase::Closing ==> self == WindowPhase::Closing || event
                == (WindowEvent::QuitAnswered { allowed: true }),
    {
        match self {
            WindowPhase::Closing => WindowPhase::Closing,
            _ => match event {
                WindowEvent::CloseRequested => WindowPhase::CloseRequested,
                WindowEvent::QuitAnswered { allowed } => if allowed {
                    WindowPhase::Closing
                } else {
                    WindowPhase::Open
                },
                WindowEvent::Other => self,
            },
        }
    }
}

/// The phase of a window that was opened and has since seen `events`, in this
/// order.
pub open spec fn phase_of(events: Seq<WindowEvent>) -> WindowPhase
    decreases events.len(),
{
    if events.len() == 0 {
        WindowPhase::Open
    } else {
        phase_after(phase_of(events.drop_last()), events.last())
    }
}

/// No window closes uncontrolled: a window is on its way out only if quitting was
/// allowed at some point, however many close requests there were.
pub proof fn lemma_closing_was_allowed(events: Seq<WindowEvent>)
    requires
        phase_of(events) == WindowPhase::Closing,
    ensures
        exists|i: int|
            0 <= i < events.len() && #[trigger] events[i] == (WindowEvent::QuitAnswered {
                allowed: true,
            }),
    decreases events.len(),
{
    if events.len() > 0 {
        let before = events.drop_last();
        if phase_of(before) == WindowPhase::Closing {
            lemma_closing_was_allowed(before);
            let i = choose|i: int|
                0 <= i < before.len() && #[trigger] before[i] == (WindowEvent::QuitAnswered {
                    allowed: true,
                });
            assert(events[i] == before[i]);
        } else {
            assert(events[events.len() - 1] == events.last());
        }
    }
}

} // verus!
