use jot::recovery::{
    file_name_for, get_recovery_dir, get_recovery_file_path, sanitize, Draft, RecoveryStore,
};
use std::path::Path;

fn joined(parts: &[&str]) -> String {
    let mut path = Path::new(parts[0]).to_path_buf();
    for part in &parts[1..] {
        path = path.join(part);
    }
    path.to_string_lossy().into_owned()
}

#[test]
fn sanitize_keeps_letters_digits_underscore_and_hyphen() {
    assert_eq!(sanitize("notepad_1700000000123"), "notepad_1700000000123");
    assert_eq!(sanitize("a-b_C9"), "a-b_C9");
}

#[test]
fn sanitize_drops_path_syntax() {
    assert_eq!(sanitize("../evil"), "evil");
    assert_eq!(sanitize("..\\evil"), "evil");
    assert_eq!(sanitize("C:/x/y"), "Cxy");
    assert_eq!(sanitize("a b\tc\0d"), "abcd");
    assert_eq!(sanitize("./.."), "");
}

#[test]
fn sanitize_keeps_letters_and_numbers_beyond_ascii() {
    assert_eq!(sanitize("caf\u{e9}"), "caf\u{e9}");
    assert_eq!(sanitize("\u{85cf}\u{663}\u{be}"), "\u{85cf}\u{663}\u{be}");
    assert_eq!(sanitize("a\u{2215}b\u{ff0f}c"), "abc");
}

#[test]
fn sanitize_is_idempotent() {
    for label in ["main", "../evil", "a b", "", "\u{e9}/\u{e9}"] {
        let once = sanitize(label);
        assert_eq!(sanitize(&once), once);
    }
}

#[test]
fn sanitize_agrees_with_the_filter_over_chars() {
    for label in ["main", "../evil", "x\u{301}y", "1/2", "_-_", "\u{2160}\u{b2}!"] {
        let expected: String =
            label.chars().filter(|c| c.is_alphanumeric() || *c == '_' || *c == '-').collect();
        assert_eq!(sanitize(label), expected);
    }
}

#[test]
fn file_name_of_the_main_window() {
    assert_eq!(file_name_for("main"), "recovery_main.txt");
}

#[test]
fn file_name_of_a_label_that_sanitizes_to_main() {
    assert_eq!(file_name_for("m/a/i/n"), "recovery_main.txt");
    assert_eq!(file_name_for("../main"), "recovery_main.txt");
}

#[test]
fn file_name_of_another_window() {
    assert_eq!(file_name_for("notepad_17"), "recovery_notepad_17.txt");
}

#[test]
fn file_name_of_a_hostile_label_has_no_path_syntax() {
    let name = file_name_for("../evil");
    assert_eq!(name, "recovery_evil.txt");
    for label in ["../../etc/passwd", "..", "/", "a\\b", "C:", ""] {
        let name = file_name_for(label);
        assert!(name.starts_with("recovery_") && name.ends_with(".txt"));
        assert!(!name.contains('/') && !name.contains('\\') && !name.contains(':'));
        let inner = &name["recovery_".len()..name.len() - ".txt".len()];
        assert!(inner.chars().all(|c| c.is_alphanumeric() || c == '_' || c == '-'));
    }
}

#[test]
fn file_name_of_an_empty_label() {
    assert_eq!(file_name_for(""), "recovery_.txt");
}

#[test]
fn store_places_drafts_under_jot_in_the_data_directory() {
    let store = RecoveryStore::new(Some("/data"));
    assert_eq!(store.dir(), Ok(joined(&["/data", "jot"])));
    assert_eq!(store.file_path("main"), Ok(joined(&["/data", "jot", "recovery_main.txt"])));
    assert_eq!(
        store.draft("w1"),
        Ok(Draft {
            dir: joined(&["/data", "jot"]),
            path: joined(&["/data", "jot", "recovery_w1.txt"]),
        })
    );
}

#[test]
fn store_path_is_a_child_of_the_recovery_directory() {
    let store = RecoveryStore::new(Some("/data"));
    let dir = store.dir().unwrap();
    for label in ["main", "../evil", "../../x", "/abs", ""] {
        let path = store.file_path(label).unwrap();
        assert_eq!(Path::new(&path).parent(), Some(Path::new(&dir)));
        assert_eq!(
            Path::new(&path).file_name().and_then(|n| n.to_str()),
            Some(file_name_for(label).as_str())
        );
    }
}

#[test]
fn store_without_a_data_directory_has_no_paths() {
    let store = RecoveryStore::new(None);
    let message = "Could not find app data directory".to_string();
    assert_eq!(store.dir(), Err(message.clone()));
    assert_eq!(store.file_path("main"), Err(message.clone()));
    assert_eq!(store.draft("main"), Err(message));
}

#[test]
fn located_store_follows_the_data_directory_of_the_user() {
    let data_dir = dirs::data_dir().map(|d| d.to_string_lossy().into_owned());
    let expected = RecoveryStore::new(data_dir.as_deref());
    assert_eq!(RecoveryStore::locate().dir(), expected.dir());
    assert_eq!(get_recovery_dir(), expected.dir());
    assert_eq!(get_recovery_file_path("main"), expected.file_path("main"));
    assert_eq!(get_recovery_file_path("../evil"), expected.file_path("evil"));
}
