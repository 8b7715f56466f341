use mendel_shell::pending::{
    check_pending_open, handle_opened, take_opened_file, OpenedFile, SignalCheck, OPEN_FILE_EVENT,
    SIGNAL_FILE,
};

fn some(path: &str) -> Option<String> {
    Some(path.to_string())
}

#[test]
fn marker_and_event_names_are_fixed() {
    assert_eq!(SIGNAL_FILE, "/tmp/.markdowneditor-open");
    assert_eq!(OPEN_FILE_EVENT, "open-file");
}

#[test]
fn marker_with_a_path_is_delivered_once() {
    let first = check_pending_open(Some("/Users/x/doc.md\n"));
    assert_eq!(first, SignalCheck { path: some("/Users/x/doc.md"), remove_marker: true });
    // The marker is gone by now, so the next look finds none.
    let second = check_pending_open(None);
    assert_eq!(second, SignalCheck { path: None, remove_marker: false });
}

#[test]
fn absent_marker_pends_nothing_and_is_not_removed() {
    let check = check_pending_open(None);
    assert_eq!(check.path, None);
    assert!(!check.remove_marker);
}

#[test]
fn blank_marker_pends_nothing_and_is_still_removed() {
    for contents in ["", " ", "\n", " \t\r\n ", "\u{a0}\u{2003}\u{3000}"] {
        let check = check_pending_open(Some(contents));
        assert_eq!(check, SignalCheck { path: None, remove_marker: true }, "{:?}", contents);
    }
}

#[test]
fn marker_path_keeps_inner_white_space() {
    let check = check_pending_open(Some("  /Users/x/My Notes/a b.md \r\n"));
    assert_eq!(check.path, some("/Users/x/My Notes/a b.md"));
    assert!(check.remove_marker);
}

#[test]
fn marker_path_without_white_space_is_unchanged() {
    let check = check_pending_open(Some("/tmp/é.md"));
    assert_eq!(check, SignalCheck { path: some("/tmp/é.md"), remove_marker: true });
}

#[test]
fn new_slot_is_empty() {
    let mut state = OpenedFile::new();
    assert_eq!(take_opened_file(&mut state), None);
}

#[test]
fn take_twice_returns_the_path_once() {
    let mut state = OpenedFile::new();
    let paths = handle_opened(&mut state, &vec![some("/a.md")]);
    assert_eq!(paths, vec!["/a.md".to_string()]);
    assert_eq!(take_opened_file(&mut state), some("/a.md"));
    assert_eq!(take_opened_file(&mut state), None);
}

#[test]
fn later_open_overwrites_an_untaken_one() {
    let mut state = OpenedFile::new();
    handle_opened(&mut state, &vec![some("/a.md")]);
    handle_opened(&mut state, &vec![some("/b.md")]);
    handle_opened(&mut state, &vec![some("/c.md")]);
    assert_eq!(take_opened_file(&mut state), some("/c.md"));
    assert_eq!(take_opened_file(&mut state), None);
}

#[test]
fn every_local_path_is_broadcast_and_the_last_is_kept() {
    let mut state = OpenedFile::new();
    let urls = vec![some("/a.md"), None, some("/b.md"), some("/c.md"), None];
    let paths = handle_opened(&mut state, &urls);
    assert_eq!(paths, vec!["/a.md".to_string(), "/b.md".to_string(), "/c.md".to_string()]);
    assert_eq!(take_opened_file(&mut state), some("/c.md"));
    assert_eq!(take_opened_file(&mut state), None);
}

#[test]
fn opens_without_a_local_path_leave_the_slot_alone() {
    let mut state = OpenedFile::new();
    assert_eq!(handle_opened(&mut state, &Vec::new()), Vec::<String>::new());
    assert_eq!(handle_opened(&mut state, &vec![None, None]), Vec::<String>::new());
    assert_eq!(take_opened_file(&mut state), None);

    handle_opened(&mut state, &vec![some("/kept.md")]);
    assert_eq!(handle_opened(&mut state, &vec![None]), Vec::<String>::new());
    assert_eq!(take_opened_file(&mut state), some("/kept.md"));
}

#[test]
fn slot_can_be_filled_again_after_a_take() {
    let mut state = OpenedFile::new();
    handle_opened(&mut state, &vec![some("/a.md")]);
    assert_eq!(take_opened_file(&mut state), some("/a.md"));
    handle_opened(&mut state, &vec![some("/b.md")]);
    assert_eq!(take_opened_file(&mut state), some("/b.md"));
    assert_eq!(take_opened_file(&mut state), None);
}
