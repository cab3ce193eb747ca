//! The vocabulary between the editor's logic and the host runtime. A flow never
//! touches a file, a dialog or a window: it names the one thing it needs next as a
//! [`Request`], the host performs it and answers with a [`Response`], and when the
//! flow is over its request is [`Request::Done`] with the command's [`Reply`].
//!
//! Each type is generic in its text `T`: `String` in executable code, `Seq<char>` in
//! specifications. The view of a value replaces every `String` in it by its
//! characters.

use crate::text::opt_text;
use vstd::prelude::*;

verus! {

/// What a command hands back to the presentation layer.
#[derive(Debug, PartialEq, Eq)]
pub enum Reply<T> {
    /// The command is done and has nothing to report.
    Unit,
    /// A yes or no: whether the action went ahead, or what the user answered.
    Flag(bool),
    /// The path a document was saved to; `None` when the user cancelled.
    Path(Option<T>),
    /// The content and the path of the document that was opened; `None` when the
    /// user declined or cancelled.
    Opened(Option<(T, T)>),
    /// The draft that can be recovered, if there is one.
    Content(Option<T>),
    /// The command failed; the text says why.
    Failed(T),
}

/// One thing the host runtime is asked to do.
#[derive(Debug, PartialEq, Eq)]
pub enum Request<T> {
    /// Show a modal yes/no warning and wait for the answer. Answer: `Bool`.
    Confirm { message: T, title: T },
    /// Let the user pick a file to open. Answer: `Path`.
    PickFile,
    /// Let the user pick where to save. Answer: `Path`.
    PickSaveLocation,
    /// Read the whole file as text. Answer: `Text`, or `Failed`.
    ReadFile { path: T },
    /// Create or replace the file with this content. Answer: `Done`, or `Failed`.
    WriteFile { path: T, content: T },
    /// Delete the file. Answer: `Done`, or `Failed`.
    RemoveFile { path: T },
    /// Say whether a file or a directory exists at the path. Answer: `Bool`.
    FileExists { path: T },
    /// Create the directory, with its parents. Answer: `Done`, or `Failed`.
    CreateDirectory { path: T },
    /// Set the title of the window the command came from. Answer: `Done`, or
    /// `Failed`.
    SetTitle { title: T },
    /// Say whether a window with this label is open. Answer: `Bool`.
    WindowExists { label: T },
    /// Open a new editor window. Answer: `Done`, or `Failed`.
    CreateWindow { label: T, url: T, title: T, width: u32, height: u32 },
    /// Have close requests of the window with this label intercepted. Answer:
    /// `Done`.
    InterceptClose { label: T },
    /// End the process with this exit code.
    Exit { code: i32 },
    /// Nothing more to do: hand the reply to the presentation layer.
    Done { reply: Reply<T> },
}

/// What the host runtime answers.
#[derive(Debug, PartialEq, Eq)]
pub enum Response<T> {
    /// A yes or no.
    Bool(bool),
    /// The path the user chose, or `None` if the dialog was cancelled.
    Path(Option<T>),
    /// The text that was read.
    Text(T),
    /// The work was done.
    Done,
    /// The work could not be done; the text says why.
    Failed(T),
}

impl View for Reply<String> {
    type V = Reply<Seq<char>>;

    open spec fn view(&self) -> Reply<Seq<char>> {
        match *self {
            Reply::Unit => Reply::Unit,
            Reply::Flag(b) => Reply::Flag(b),
            Reply::Path(p) => Reply::Path(opt_text(p)),
            Reply::Opened(None) => Reply::Opened(None),
            Reply::Opened(Some((content, path))) => Reply::Opened(Some((content@, path@))),
            Reply::Content(c) => Reply::Content(opt_text(c)),
            Reply::Failed(e) => Reply::Failed(e@),
        }
    }
}

impl View for Request<String> {
    type V = Request<Seq<char>>;

    open spec fn view(&self) -> Request<Seq<char>> {
        match *self {
            Request::Confirm { message, title } => Request::Confirm {
                message: message@,
                title: title@,
            },
            Request::PickFile => Request::PickFile,
            Request::PickSaveLocation => Request::PickSaveLocation,
            Request::ReadFile { path } => Request::ReadFile { path: path@ },
            Request::WriteFile { path, content } => Request::WriteFile {
                path: path@,
                content: content@,
            },
            Request::RemoveFile { path } => Request::RemoveFile { path: path@ },
            Request::FileExists { path } => Request::FileExists { path: path@ },
            Request::CreateDirectory { path } => Request::CreateDirectory { path: path@ },
            Request::SetTitle { title } => Request::SetTitle { title: title@ },
            Request::WindowExists { label } => Request::WindowExists { label: label@ },
            Request::CreateWindow { label, url, title, width, height } => Request::CreateWindow {
                label: label@,
                url: url@,
                title: title@,
                width,
                height,
            },
            Request::InterceptClose { label } => Request::InterceptClose { label: label@ },
            Request::Exit { code } => Request::Exit { code },
            Request::Done { reply } => Request::Done { reply: reply@ },
        }
    }
}

impl View for Response<String> {
    type V = Response<Seq<char>>;

    open spec fn view(&self) -> Response<Seq<char>> {
        match *self {
            Response::Bool(b) => Response::Bool(b),
            Response::Path(p) => Response::Path(opt_text(p)),
            Response::Text(text) => Response::Text(text@),
            Response::Done => Response::Done,
            Response::Failed(e) => Response::Failed(e@),
        }
    }
}

} // verus!
