//! The recovery store: where the draft of each window is kept on disk.
//!
//! A window's draft lives in one file of the recovery directory, `jot` under the
//! user's data directory. The file's name is made from the window's label with
//! every character removed that could mean something in a path.

use crate::paths::{data_dir, join_path, path_join};
use crate::text::{is_letter_or_number, opt_str, push_char};
use vstd::prelude::*;

verus! {

/// The characters a window label keeps in its file name: letters, numbers, `_`
/// and `-`.
pub open spec fn is_label_char(c: char) -> bool {
    is_letter_or_number(c) || c == '_' || c == '-'
}

/// A label with every character dropped that is not a label character.
pub open spec fn sanitized(label: Seq<char>) -> Seq<char> {
    label.filter(|c: char| is_label_char(c))
}

/// The name of the recovery file of the window called `label`.
pub open spec fn recovery_file_name(label: Seq<char>) -> Seq<char> {
    "recovery_"@ + sanitized(label) + ".txt"@
}

/// Where one window's draft is kept: the recovery directory, and the path of the
/// draft file in it.
#[derive(Debug, PartialEq, Eq)]
pub struct Draft<T> {
    pub dir: T,
    pub path: T,
}

impl View for Draft<String> {
    type V = Draft<Seq<char>>;

    open spec fn view(&self) -> Draft<Seq<char>> {
        Draft { dir: self.dir@, path: self.path@ }
    }
}

/// The characters of a text or of the message in its place.
pub open spec fn result_text(r: Result<String, String>) -> Result<Seq<char>, Seq<char>> {
    match r {
        Ok(s) => Ok(s@),
        Err(e) => Err(e@),
    }
}

/// The location of a draft, or the message in its place, as characters.
pub open spec fn result_draft(r: Result<Draft<String>, String>) -> Result<
    Draft<Seq<char>>,
    Seq<char>,
> {
    match r {
        Ok(d) => Ok(d@),
        Err(e) => Err(e@),
    }
}

/// The recovery directory under the user's data directory, or the reason there is
/// none.
pub open spec fn recovery_dir(data_dir: Option<Seq<char>>) -> Result<Seq<char>, Seq<char>> {
    match data_dir {
        Some(dir) => Ok(path_join(dir, "jot"@)),
        None => Err("Could not find app data directory"@),
    }
}

/// Where the draft of the window called `label` is kept.
pub open spec fn draft_location(data_dir: Option<Seq<char>>, label: Seq<char>) -> Result<
    Draft<Seq<char>>,
    Seq<char>,
> {
    match recovery_dir(data_dir) {
        Ok(dir) => Ok(Draft { dir, path: path_join(dir, recovery_file_name(label)) }),
        Err(e) => Err(e),
    }
}

/// The path of the recovery file of the window called `label`.
pub open spec fn recovery_file_path(data_dir: Option<Seq<char>>, label: Seq<char>) -> Result<
    Seq<char>,
    Seq<char>,
> {
    match draft_location(data_dir, label) {
        Ok(draft) => Ok(draft.path),
        Err(e) => Err(e),
    }
}

/// Sanitizing one character more keeps it or drops it, and changes nothing before.
proof fn lemma_sanitized_step(label: Seq<char>, i: int)
    requires
        0 <= i < label.len(),
    ensures
        sanitized(label.take(i + 1)) == if is_label_char(label[i]) {
            sanitized(label.take(i)).push(label[i])
        } else {
            sanitized(label.take(i))
        },
{
    reveal(Seq::filter);
    assert(label.take(i + 1).drop_last() =~= label.take(i));
}

/// Removes from `label` every character that is not a letter, a number, `_` or
/// `-`, keeping the others in their order.
pub fn sanitize(label: &str) -> (r: String)
    ensures
        r@ == sanitized(label@),
        forall|i: int| 0 <= i < r@.len() ==> is_label_char(#[trigger] r@[i]),
{
    let mut out = String::new();
    let chars = label.chars();
    proof {
        reveal(Seq::filter);
        assert(label@.take(0) =~= Seq::<char>::empty());
    }
    for c in it: chars
        invariant
            it.seq() == label@,
            out@ == sanitized(label@.take(it.index())),
            forall|i: int| 0 <= i < out@.len() ==> is_label_char(#[trigger] out@[i]),
    {
        proof {
            lemma_sanitized_step(label@, it.index());
        }
        if c.is_alphanumeric() || c == '_' || c == '-' {
            push_char(&mut out, c);
        }
    }
    proof {
        assert(label@.take(label@.len() as int) =~= label@);
    }
    out
}

/// The name of the recovery file of the window called `label`:
/// `recovery_{sanitized label}.txt`.
pub fn file_name_for(label: &str) -> (name: String)
    ensures
        name@ == recovery_file_name(label@),
{
    let clean = sanitize(label);
    "recovery_".to_owned().concat(clean.as_str()).concat(".txt")
}

/// The recovery store of one user: the drafts under that user's data directory.
pub struct RecoveryStore {
    data_dir: Option<String>,
}

impl View for RecoveryStore {
    type V = Option<Seq<char>>;

    /// The user's data directory, if there is one.
    closed spec fn view(&self) -> Option<Seq<char>> {
        match self.data_dir {
            Some(dir) => Some(dir@),
            None => None,
        }
    }
}

impl RecoveryStore {
    /// The store under `data_dir`; with `None`, the store of a user who has no data
    /// directory, in which no draft can be kept.
    pub fn new(data_dir: Option<&str>) -> (store: RecoveryStore)
        ensures
            store@ == opt_str(data_dir),
    {
        match data_dir {
            Some(dir) => RecoveryStore { data_dir: Some(dir.to_owned()) },
            None => RecoveryStore { data_dir: None },
        }
    }

    /// The store of the current user, whose data directory is looked up in the
    /// environment. Whatever the lookup finds, the store is the one that
    /// [`RecoveryStore::new`] makes of it. Paths are kept as text: a data directory
    /// whose name is not valid Unicode is taken with a replacement character for
    /// each ill-formed part of it, so the drafts of such a user are kept under the
    /// directory of that rendered name.
    pub fn locate() -> (store: RecoveryStore)
    {
        RecoveryStore { data_dir: data_dir() }
    }

    /// The recovery directory, or the reason there is none.
    pub fn dir(&self) -> (r: Result<String, String>)
        ensures
            result_text(r) == recovery_dir(self@),
    {
        match &self.data_dir {
            Some(dir) => Ok(join_path(dir.as_str(), "jot")),
            None => Err("Could not find app data directory".to_owned()),
        }
    }

    /// Where the draft of the window called `label` is kept.
    pub fn draft(&self, label: &str) -> (r: Result<Draft<String>, String>)
        ensures
            result_draft(r) == draft_location(self@, label@),
    {
        match self.dir() {
            Ok(dir) => {
                let name = file_name_for(label);
                let path = join_path(dir.as_str(), name.as_str());
                Ok(Draft { dir, path })
            },
            Err(e) => Err(e),
        }
    }

    /// The path of the recovery file of the window called `label`.
    pub fn file_path(&self, label: &str) -> (r: Result<String, String>)
        ensures
            result_text(r) == recovery_file_path(self@, label@),
    {
        match self.draft(label) {
            Ok(draft) => Ok(draft.path),
            Err(e) => Err(e),
        }
    }
}

/// The recovery directory of the current user. The data directory is looked up in
/// the environment; whatever the lookup finds, the answer is what [`recovery_dir`]
/// makes of it: the message that no data directory was found, or
/// `{data directory}/jot`.
pub fn get_recovery_dir() -> (r: Result<String, String>)
    ensures
        exists|data_dir: Option<Seq<char>>| result_text(r) == #[trigger] recovery_dir(data_dir),
{
    let store = RecoveryStore::locate();
    let r = store.dir();
    assert(result_text(r) == recovery_dir(store@));
    r
}

/// The path of the recovery file of the window called `window_label`, in the store of
/// the current user. The data directory is looked up in the environment; whatever
/// the lookup finds, the answer is what [`recovery_file_path`] makes of it: the
/// message that no data directory was found, or
/// `{data directory}/jot/recovery_{sanitized label}.txt`.
pub fn get_recovery_file_path(window_label: &str) -> (r: Result<String, String>)
    ensures
        exists|data_dir: Option<Seq<char>>|
            result_text(r) == #[trigger] recovery_file_path(data_dir, window_label@),
{
    let store = RecoveryStore::locate();
    let r = store.file_path(window_label);
    assert(result_text(r) == recovery_file_path(store@, window_label@));
    r
}

/// The characters that mean something in a path: the separators of either
/// platform, the colon of a drive or a stream, and the terminator.
pub open spec fn is_path_syntax(c: char) -> bool {
    c == '/' || c == '\\' || c == ':' || c == '\0'
}

/// A name that can only be an entry of the directory it is joined to: it is not
/// empty, it is neither `.` nor `..`, and no character of it is path syntax.
pub open spec fn is_entry_name(name: Seq<char>) -> bool {
    &&& name.len() > 0
    &&& name != "."@
    &&& name != ".."@
    &&& forall|i: int| 0 <= i < name.len() ==> !is_path_syntax(#[trigger] name[i])
}

/// Sanitizing keeps label characters only, whatever the label holds.
pub proof fn lemma_sanitized_chars(label: Seq<char>)
    ensures
        forall|i: int|
            0 <= i < sanitized(label).len() ==> is_label_char(#[trigger] sanitized(label)[i]),
    decreases label.len(),
{
    reveal(Seq::filter);
    if label.len() > 0 {
        lemma_sanitized_chars(label.drop_last());
    }
}

/// A label that holds label characters only is its own sanitized form.
pub proof fn lemma_clean_label_unchanged(label: Seq<char>)
    requires
        forall|i: int| 0 <= i < label.len() ==> is_label_char(#[trigger] label[i]),
    ensures
        sanitized(label) == label,
    decreases label.len(),
{
    reveal(Seq::filter);
    if label.len() > 0 {
        lemma_clean_label_unchanged(label.drop_last());
        assert(label.drop_last().push(label.last()) =~= label);
    }
}

/// Sanitizing twice is sanitizing once.
pub proof fn lemma_sanitized_idempotent(label: Seq<char>)
    ensures
        sanitized(sanitized(label)) == sanitized(label),
{
    lemma_sanitized_chars(label);
    lemma_clean_label_unchanged(sanitized(label));
}

/// No recovery file leaves the recovery directory: whatever the label holds, be it
/// separators or dots, the file name made from it is a plain entry name, and
/// between its fixed beginning and ending it holds label characters only.
pub proof fn lemma_recovery_file_name_confined(label: Seq<char>)
    ensures
        is_entry_name(recovery_file_name(label)),
        recovery_file_name(label).len() == sanitized(label).len() + 13,
        forall|i: int|
            9 <= i < 9 + sanitized(label).len() ==> is_label_char(
                #[trigger] recovery_file_name(label)[i],
            ),
{
    reveal_strlit("recovery_");
    reveal_strlit(".txt");
    reveal_strlit(".");
    reveal_strlit("..");
    lemma_sanitized_chars(label);
    let head = "recovery_"@;
    let clean = sanitized(label);
    let tail = ".txt"@;
    let name = recovery_file_name(label);
    assert(name.len() == head.len() + clean.len() + tail.len());
    assert forall|i: int| 0 <= i < name.len() implies !is_path_syntax(#[trigger] name[i]) by {
        if i < 9 {
            assert(name[i] == head[i]);
        } else if i < 9 + clean.len() {
            assert(name[i] == clean[i - 9]);
            assert(is_label_char(clean[i - 9]));
        } else {
            assert(name[i] == tail[i - 9 - clean.len()]);
        }
    }
    assert forall|i: int| 9 <= i < 9 + clean.len() implies is_label_char(#[trigger] name[i]) by {
        assert(name[i] == clean[i - 9]);
    }
}

/// The draft of the window called `main` is kept in `recovery_main.txt`.
pub proof fn lemma_main_window_file_name()
    ensures
        recovery_file_name("main"@) == "recovery_main.txt"@,
{
    reveal_strlit("main");
    reveal_strlit("recovery_");
    reveal_strlit(".txt");
    reveal_strlit("recovery_main.txt");
    lemma_clean_label_unchanged("main"@);
    assert(recovery_file_name("main"@) =~= "recovery_main.txt"@);
}

} // verus!
