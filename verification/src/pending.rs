//! Handing a file that the system asked to open over to the front end: by a
//! marker file that another process left behind, and by a single slot that
//! keeps the path of the latest open request until it is taken.

use crate::text::{is_blank, lemma_blank_trims_to_nothing, trim, trimmed};
use vstd::prelude::*;

verus! {

/// Where another process leaves the path of a file to open.
pub const SIGNAL_FILE: &'static str = "/tmp/.markdowneditor-open";

/// The event that carries a path to open to the front end.
pub const OPEN_FILE_EVENT: &'static str = "open-file";

/// The path that a marker file with these contents asks to open: the
/// contents without surrounding white space, unless nothing is left.
pub open spec fn pending_path(contents: Seq<char>) -> Option<Seq<char>> {
    if trimmed(contents).len() > 0 {
        Some(trimmed(contents))
    } else {
        None
    }
}

/// What a look at the marker file comes to, given its contents or `None`
/// where there was nothing to read: the pending path, and whether the marker
/// is to be removed. A marker that was read is removed whatever it held;
/// where none was read there is nothing pending and nothing to remove.
pub open spec fn check_model(signal: Option<Seq<char>>) -> (Option<Seq<char>>, bool) {
    match signal {
        Some(contents) => (pending_path(contents), true),
        None => (None, false),
    }
}

/// What a look at the marker file comes to.
#[derive(Clone, Debug, PartialEq, Eq)]
pub struct SignalCheck {
    /// The path to open, if one is pending.
    pub path: Option<String>,
    /// Whether the marker file is to be removed. A removal that fails is of
    /// no consequence.
    pub remove_marker: bool,
}

/// Decides what a look at the marker file comes to. `signal` holds the
/// file's contents, or nothing where the file is absent or unreadable.
pub fn check_pending_open(signal: Option<&str>) -> (check: SignalCheck)
    ensures
        (check.path.deep_view(), check.remove_marker) == check_model(signal.deep_view()),
{
    match signal {
        Some(contents) => {
            let path = trim(contents);
            if path.is_empty() {
                SignalCheck { path: None, remove_marker: true }
            } else {
                SignalCheck { path: Some(path.to_owned()), remove_marker: true }
            }
        },
        None => SignalCheck { path: None, remove_marker: false },
    }
}

/// A marker that holds white space only asks for nothing, and is removed
/// all the same.
pub proof fn lemma_blank_marker_pends_nothing(contents: Seq<char>)
    requires
        is_blank(contents),
    ensures
        check_model(Some(contents)) == (None::<Seq<char>>, true),
{
    lemma_blank_trims_to_nothing(contents);
}

/// Where no marker could be read, nothing is pending and nothing is removed.
pub proof fn lemma_absent_marker_is_left_alone()
    ensures
        check_model(None) == (None::<Seq<char>>, false),
{
}

/// The paths among `urls`, in order. An entry is `None` where the system
/// named something that is no local file.
pub open spec fn local_paths(urls: Seq<Option<Seq<char>>>) -> Seq<Seq<char>>
    decreases urls.len(),
{
    if urls.len() == 0 {
        Seq::empty()
    } else {
        match urls.last() {
            Some(path) => local_paths(urls.drop_last()).push(path),
            None => local_paths(urls.drop_last()),
        }
    }
}

/// The slot after `paths` were stored one after the other: each overwrites
/// what was there, so the last one stays.
pub open spec fn slot_after(slot: Option<Seq<char>>, paths: Seq<Seq<char>>) -> Option<Seq<char>> {
    if paths.len() == 0 {
        slot
    } else {
        Some(paths.last())
    }
}

/// Taking from the slot: what is delivered, and what stays behind.
pub open spec fn slot_taken(slot: Option<Seq<char>>) -> (Option<Seq<char>>, Option<Seq<char>>) {
    (slot, None)
}

/// The single slot that holds the path of the latest open request until the
/// front end takes it. There is no queue: a later request replaces an
/// earlier one that was not taken.
#[derive(Debug)]
pub struct OpenedFile {
    path: Option<String>,
}

impl View for OpenedFile {
    type V = Option<Seq<char>>;

    closed spec fn view(&self) -> Option<Seq<char>> {
        self.path.deep_view()
    }
}

impl OpenedFile {
    /// An empty slot.
    pub fn new() -> (state: OpenedFile)
        ensures
            state@ is None,
    {
        OpenedFile { path: None }
    }
}

/// Takes in the files that the system asked to open. Every local path among
/// `urls` is to be broadcast as `OPEN_FILE_EVENT`, in the order returned, and
/// the last of them is kept in the slot for a front end that was not yet
/// listening.
pub fn handle_opened(state: &mut OpenedFile, urls: &Vec<Option<String>>) -> (paths: Vec<String>)
    ensures
        paths.deep_view() == local_paths(urls.deep_view()),
        final(state)@ == slot_after(old(state)@, local_paths(urls.deep_view())),
{
    let mut paths: Vec<String> = Vec::new();
    let mut i: usize = 0;
    assert(urls.deep_view().take(0) =~= Seq::empty());
    assert(paths.deep_view() =~= Seq::empty());
    while i < urls.len()
        invariant
            i <= urls.len(),
            paths.deep_view() == local_paths(urls.deep_view().take(i as int)),
        decreases urls.len() - i,
    {
        let ghost before = paths.deep_view();
        let ghost seen = urls.deep_view().take(i as int + 1);
        assert(seen.drop_last() =~= urls.deep_view().take(i as int));
        assert(seen.last() == urls@[i as int].deep_view());
        match &urls[i] {
            Some(path) => {
                paths.push(path.clone());
                assert(paths.deep_view() =~= before.push(path@));
            },
            None => {},
        }
        i = i + 1;
    }
    assert(urls.deep_view().take(i as int) =~= urls.deep_view());
    if paths.len() > 0 {
        let last = paths[paths.len() - 1].clone();
        assert(last@ == paths.deep_view().last());
        state.path = Some(last);
    }
    paths
}

/// Hands the pending path to the front end and empties the slot, so that no
/// path is delivered twice.
pub fn take_opened_file(state: &mut OpenedFile) -> (path: Option<String>)
    ensures
        path.deep_view() == slot_taken(old(state)@).0,
        final(state)@ == slot_taken(old(state)@).1,
{
    state.path.take()
}

/// However many files were opened since, the first take delivers the last of
/// them (or what was pending before, if there were none), and a second take
/// right after it delivers nothing.
pub proof fn lemma_take_delivers_once(slot: Option<Seq<char>>, paths: Seq<Seq<char>>)
    ensures
        paths.len() > 0 ==> slot_taken(slot_after(slot, paths)).0 == Some(paths.last()),
        paths.len() == 0 ==> slot_taken(slot_after(slot, paths)).0 == slot,
        slot_taken(slot_taken(slot_after(slot, paths)).1).0 is None,
{
}

} // verus!
