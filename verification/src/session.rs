//! The document session of a window: which file the document belongs to and
//! whether it has unsaved modifications. The window title is derived from these.

use crate::paths::{file_name_of, path_file_name};
use crate::text::opt_text;
use crate::title::{render_title, title_text};
use vstd::prelude::*;

verus! {

/// The session of one window.
#[derive(Debug, PartialEq, Eq)]
pub struct DocumentSession {
    /// The label of the window.
    pub window_identity: String,
    /// The file the document was opened from or last saved to; `None` until then.
    pub file_path: Option<String>,
    /// Whether the document has modifications that are not saved.
    pub is_modified: bool,
}

/// A session, as characters.
pub struct SessionView {
    pub window_identity: Seq<char>,
    pub file_path: Option<Seq<char>>,
    pub is_modified: bool,
}

impl View for DocumentSession {
    type V = SessionView;

    open spec fn view(&self) -> SessionView {
        SessionView {
            window_identity: self.window_identity@,
            file_path: opt_text(self.file_path),
            is_modified: self.is_modified,
        }
    }
}

impl SessionView {
    /// The name the document goes by: the final component of its path, if it has a
    /// path and the path has one.
    pub open spec fn file_name(self) -> Option<Seq<char>> {
        match self.file_path {
            Some(path) => path_file_name(path),
            None => None,
        }
    }

    /// The title of the session's window.
    pub open spec fn title(self) -> Seq<char> {
        title_text(self.file_name(), self.is_modified)
    }
}

impl DocumentSession {
    /// The session of a window that was just opened: no file, no modifications.
    pub fn new(window_identity: String) -> (session: DocumentSession)
        ensures
            session@ == (SessionView {
                window_identity: window_identity@,
                file_path: None,
                is_modified: false,
            }),
    {
        DocumentSession { window_identity, file_path: None, is_modified: false }
    }

    /// The document was edited, or its edits were undone.
    pub fn set_modified(&mut self, is_modified: bool)
        ensures
            final(self)@ == (SessionView { is_modified, ..old(self)@ }),
    {
        self.is_modified = is_modified;
    }

    /// A document was opened from `path`: the session belongs to that file and has
    /// no modifications.
    pub fn on_open(&mut self, path: String)
        ensures
            final(self)@ == (SessionView {
                file_path: Some(path@),
                is_modified: false,
                ..old(self)@
            }),
    {
        self.file_path = Some(path);
        self.is_modified = false;
    }

    /// A save ended. If it wrote the document to `saved`, the session belongs to
    /// that file and has no modifications; if the user cancelled, nothing changes.
    pub fn on_save(&mut self, saved: Option<String>)
        ensures
            final(self)@ == match saved {
                Some(path) => SessionView {
                    file_path: Some(path@),
                    is_modified: false,
                    ..old(self)@
                },
                None => old(self)@,
            },
    {
        match saved {
            Some(path) => {
                self.file_path = Some(path);
                self.is_modified = false;
            },
            None => {},
        }
    }

    /// A save-as ended: as for a save.
    pub fn on_save_as(&mut self, saved: Option<String>)
        ensures
            final(self)@ == match saved {
                Some(path) => SessionView {
                    file_path: Some(path@),
                    is_modified: false,
                    ..old(self)@
                },
                None => old(self)@,
            },
    {
        self.on_save(saved)
    }

    /// The user was asked to clear the document. If the clearing went ahead, the
    /// session has no file and no modifications; if not, nothing changes.
    pub fn on_clear(&mut self, cleared: bool)
        ensures
            final(self)@ == if cleared {
                SessionView { file_path: None, is_modified: false, ..old(self)@ }
            } else {
                old(self)@
            },
    {
        if cleared {
            self.file_path = None;
            self.is_modified = false;
        }
    }

    /// The title of the session's window.
    pub fn title(&self) -> (title: String)
        ensures
            title@ == self@.title(),
    {
        let name = match &self.file_path {
            Some(path) => file_name_of(path.as_str()),
            None => None,
        };
        match name {
            Some(name) => render_title(Some(name.as_str()), self.is_modified),
            None => render_title(None, self.is_modified),
        }
    }
}

} // verus!
