//! The decisions of the interaction loop: how a session starts, what one key
//! press does to it, and what is saved when it closes.
//!
//! Drawing the list and waiting for keys are the host's part. It hands each
//! key to [`handle_key`] until that returns a [`Command`].

use crate::session::{lemma_add_is_idempotent, lemma_add_twice_holds_once, Session, SessionView};
use crate::{saved, SavePoints, StoreError, WriteOrder};
use vstd::prelude::*;

verus! {

/// A key as the loop sees it.
#[derive(Clone, Copy, Debug, PartialEq, Eq, Structural)]
pub enum KeyPress {
    /// A character key.
    Char(char),
    /// The enter key.
    Enter,
    /// Any other key.
    Other,
}

/// What the host is to do when the session has ended.
#[derive(Debug, PartialEq, Eq)]
pub enum Command {
    /// Save the list and leave.
    Close,
    /// Leave for this path.
    ExitPath(String),
}

/// A [`Command`] as contracts see it.
pub enum CommandView {
    /// Save the list and leave.
    Close,
    /// Leave for the path with these characters.
    ExitPath(Seq<char>),
}

impl View for Command {
    type V = CommandView;

    open spec fn view(&self) -> CommandView {
        match self {
            Command::Close => CommandView::Close,
            Command::ExitPath(target) => CommandView::ExitPath(target@),
        }
    }
}

/// The session after `key`. `cwd` is the current working directory, `None`
/// where it cannot be told.
///
/// `j` moves the cursor down and `k` up, `a` adds the working directory, `d`
/// deletes the line under the cursor. Every other key leaves the session as
/// it is.
pub open spec fn step(s: SessionView, key: KeyPress, cwd: Option<Seq<char>>) -> SessionView {
    match key {
        KeyPress::Char(c) => if c == 'j' {
            s.move_down()
        } else if c == 'k' {
            s.move_up()
        } else if c == 'a' {
            match cwd {
                Some(dir) => s.add(dir),
                None => s,
            }
        } else if c == 'd' {
            s.delete()
        } else {
            s
        },
        _ => s,
    }
}

/// The command that `key` ends the session with, `None` where the session
/// goes on.
///
/// `q` closes. Enter leaves for the path under the cursor, if the list has
/// one.
pub open spec fn outcome(s: SessionView, key: KeyPress) -> Option<CommandView> {
    match key {
        KeyPress::Char(c) => if c == 'q' {
            Some(CommandView::Close)
        } else {
            None
        },
        KeyPress::Enter => match s.current() {
            Some(target) => Some(CommandView::ExitPath(target)),
            None => None,
        },
        KeyPress::Other => None,
    }
}

/// The session after each of `events` in turn, a key and the working
/// directory at the time it was pressed.
pub open spec fn replay(s: SessionView, events: Seq<(KeyPress, Option<Seq<char>>)>) -> SessionView
    decreases events.len(),
{
    if events.len() == 0 {
        s
    } else {
        step(replay(s, events.drop_last()), events.last().0, events.last().1)
    }
}

/// A copy of `list`, string by string.
fn copy_of(list: &Vec<String>) -> (copy: Vec<String>)
    ensures
        copy.deep_view() == list.deep_view(),
{
    let mut copy: Vec<String> = Vec::new();
    let mut i: usize = 0;
    while i < list.len()
        invariant
            i <= list.len(),
            copy.len() == i,
            forall|j: int| 0 <= j < i ==> copy[j]@ == list[j]@,
        decreases list.len() - i,
    {
        copy.push(list[i].clone());
        i += 1;
    }
    assert(copy.deep_view() =~= list.deep_view());
    copy
}

/// A session on the paths of `store`, with the cursor on the first line.
pub fn open_session(store: &SavePoints) -> (session: Session)
    ensures
        session@.paths == store.paths(),
        session@.selected == 0,
{
    let paths = copy_of(&store.memories);
    Session::new(paths)
}

/// Applies one key press to the session. Returns the command that ends the
/// session, or `None` while it goes on.
pub fn handle_key(session: &mut Session, key: KeyPress, cwd: Option<String>) -> (done: Option<
    Command,
>)
    ensures
        final(session)@ == step(old(session)@, key, cwd.deep_view()),
        final(session)@.cursor_in_bounds(),
        match done {
            Some(command) => outcome(old(session)@, key) == Some(command@),
            None => outcome(old(session)@, key).is_none(),
        },
        done.is_some() ==> final(session)@ == old(session)@,
{
    // Every session has its cursor in bounds; `selected` says so.
    let _ = session.selected();
    match key {
        KeyPress::Char(c) => {
            if c == 'q' {
                return Some(Command::Close);
            } else if c == 'j' {
                session.move_down();
            } else if c == 'k' {
                session.move_up();
            } else if c == 'a' {
                match cwd {
                    Some(dir) => session.add(dir),
                    None => {},
                }
            } else if c == 'd' {
                session.delete_selected();
            }
            None
        },
        KeyPress::Enter => match session.selected_path() {
            Some(target) => Some(Command::ExitPath(target.clone())),
            None => None,
        },
        KeyPress::Other => None,
    }
}

/// Puts the session's list into the store and gives the order that saves it
/// to the store's file.
pub fn close_session(store: &mut SavePoints, session: &Session) -> (order: Result<
    WriteOrder,
    StoreError,
>)
    ensures
        final(store).paths() == session@.paths,
        final(store).memory_path == old(store).memory_path,
        match saved(session@.paths) {
            Some(text) => order matches Ok(o) && o.path@ == old(store).memory_path@ && o.contents@
                == text,
            None => order matches Err(e) && e == StoreError::IoError,
        },
{
    let list = copy_of(session.paths());
    store.memories = list;
    store.save_to_self_path()
}

/// Whatever keys are pressed, the cursor stays on a line of the list: after
/// any run of key presses on a session whose cursor is in bounds, the cursor
/// is in bounds, and on a list that is not empty it is below the length.
pub proof fn lemma_replay_keeps_cursor_in_bounds(
    s: SessionView,
    events: Seq<(KeyPress, Option<Seq<char>>)>,
)
    requires
        s.cursor_in_bounds(),
    ensures
        replay(s, events).cursor_in_bounds(),
        replay(s, events).paths.len() > 0 ==> replay(s, events).selected < replay(
            s,
            events,
        ).paths.len(),
    decreases events.len(),
{
    if events.len() > 0 {
        lemma_replay_keeps_cursor_in_bounds(s, events.drop_last());
    }
}

/// Pressing the add key twice in the same working directory leaves the
/// session as pressing it once does, and a directory that the list held at
/// most once before is held exactly once after.
pub proof fn lemma_add_key_twice(s: SessionView, dir: Seq<char>)
    requires
        s.occurrences(dir) <= 1,
    ensures
        step(step(s, KeyPress::Char('a'), Some(dir)), KeyPress::Char('a'), Some(dir)) == step(
            s,
            KeyPress::Char('a'),
            Some(dir),
        ),
        step(step(s, KeyPress::Char('a'), Some(dir)), KeyPress::Char('a'), Some(dir)).occurrences(
            dir,
        ) == 1,
{
    lemma_add_is_idempotent(s, dir);
    lemma_add_twice_holds_once(s, dir);
}

/// The delete key on an empty list changes nothing, and the session goes on.
pub proof fn lemma_delete_key_on_empty_list(s: SessionView, cwd: Option<Seq<char>>)
    requires
        s.paths.len() == 0,
    ensures
        step(s, KeyPress::Char('d'), cwd) == s,
        outcome(s, KeyPress::Char('d')).is_none(),
{
}

} // verus!
