//! Window titles: the document's name, a leading `*` while it has unsaved
//! modifications, and the application's name behind it.

use crate::paths::{file_name_of, path_file_name};
use crate::text::opt_str;
use vstd::prelude::*;

verus! {

/// The name a document goes by in the title: its file name, or `Untitled`.
pub open spec fn display_name(filename: Option<Seq<char>>) -> Seq<char> {
    match filename {
        Some(name) => name,
        None => "Untitled"@,
    }
}

/// The title of a window: `{name} - Jot`, with `*` in front when the document is
/// modified.
pub open spec fn title_text(filename: Option<Seq<char>>, is_modified: bool) -> Seq<char> {
    if is_modified {
        "*"@ + display_name(filename) + " - Jot"@
    } else {
        display_name(filename) + " - Jot"@
    }
}

/// The title of a window whose document was just read from or written to `path`:
/// the path's final component names it, and it is unmodified.
pub open spec fn document_title(path: Seq<char>) -> Seq<char> {
    title_text(path_file_name(path), false)
}

/// The title of a window that holds no document.
pub open spec fn untitled_title() -> Seq<char> {
    title_text(None, false)
}

/// Renders the window title for a document called `filename`, if it has a name,
/// that is or is not modified.
pub fn render_title(filename: Option<&str>, is_modified: bool) -> (title: String)
    ensures
        title@ == title_text(opt_str(filename), is_modified),
{
    let name = match filename {
        Some(name) => name,
        None => "Untitled",
    };
    let marked = if is_modified {
        "*".to_owned().concat(name)
    } else {
        name.to_owned()
    };
    marked.concat(" - Jot")
}

/// Renders the title for the document at `path`, freshly opened or saved.
pub fn title_for_path(path: &str) -> (title: String)
    ensures
        title@ == document_title(path@),
{
    match file_name_of(path) {
        Some(name) => render_title(Some(name.as_str()), false),
        None => render_title(None, false),
    }
}

} // verus!
