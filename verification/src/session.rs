//! The state of one interactive session: the paths on display and the cursor.

use vstd::prelude::*;

verus! {

/// A session as contracts see it.
pub struct SessionView {
    /// The displayed paths, top to bottom.
    pub paths: Seq<Seq<char>>,
    /// The index of the highlighted line.
    pub selected: nat,
}

impl SessionView {
    /// The cursor is on a line of the list; on an empty list it rests at 0.
    pub open spec fn cursor_in_bounds(self) -> bool {
        self.selected < self.paths.len() || self.selected == 0
    }

    /// How often the list holds `path`.
    pub open spec fn occurrences(self, path: Seq<char>) -> nat {
        self.paths.to_multiset().count(path)
    }

    /// The path under the cursor, if the list has one.
    pub open spec fn current(self) -> Option<Seq<char>> {
        if self.selected < self.paths.len() {
            Some(self.paths[self.selected as int])
        } else {
            None
        }
    }

    /// One line up, unless the cursor is on the first line already.
    pub open spec fn move_up(self) -> SessionView {
        if self.selected > 0 {
            SessionView { paths: self.paths, selected: (self.selected - 1) as nat }
        } else {
            self
        }
    }

    /// One line down, unless the cursor is on the last line already.
    pub open spec fn move_down(self) -> SessionView {
        if self.selected + 1 < self.paths.len() {
            SessionView { paths: self.paths, selected: self.selected + 1 }
        } else {
            self
        }
    }

    /// `path` appended unless the list holds it already; the cursor on the
    /// last line.
    pub open spec fn add(self, path: Seq<char>) -> SessionView {
        let paths = if self.paths.contains(path) {
            self.paths
        } else {
            self.paths.push(path)
        };
        SessionView { paths, selected: (paths.len() - 1) as nat }
    }

    /// The line under the cursor removed and the cursor pulled back onto the
    /// list; nothing changes where the cursor is on no line.
    pub open spec fn delete(self) -> SessionView {
        if self.selected < self.paths.len() {
            let paths = self.paths.remove(self.selected as int);
            let selected = if self.selected < paths.len() {
                self.selected
            } else if paths.len() > 0 {
                (paths.len() - 1) as nat
            } else {
                0
            };
            SessionView { paths, selected }
        } else {
            self
        }
    }
}

/// The paths on display and the cursor among them.
///
/// Every value keeps the cursor on a line of the list, or at 0 while the
/// list is empty.
#[derive(Debug)]
pub struct Session {
    paths: Vec<String>,
    selected: usize,
}

impl View for Session {
    type V = SessionView;

    closed spec fn view(&self) -> SessionView {
        SessionView { paths: self.paths.deep_view(), selected: self.selected as nat }
    }
}

/// Whether `paths` holds `path`, by a scan from the front.
fn holds(paths: &Vec<String>, path: &String) -> (found: bool)
    ensures
        found == paths.deep_view().contains(path@),
{
    let mut i: usize = 0;
    while i < paths.len()
        invariant
            i <= paths.len(),
            forall|j: int| 0 <= j < i ==> paths.deep_view()[j] != path@,
        decreases paths.len() - i,
    {
        if paths[i] == *path {
            assert(paths.deep_view()[i as int] == path@);
            return true;
        }
        i += 1;
    }
    false
}

impl Session {
    #[verifier::type_invariant]
    spec fn inv(self) -> bool {
        self.selected < self.paths.len() || self.selected == 0
    }

    /// A session on `paths`, with the cursor on the first line.
    pub fn new(paths: Vec<String>) -> (session: Session)
        ensures
            session@.paths == paths.deep_view(),
            session@.selected == 0,
    {
        Session { paths, selected: 0 }
    }

    /// The displayed paths, top to bottom.
    pub fn paths(&self) -> (paths: &Vec<String>)
        ensures
            paths.deep_view() == self@.paths,
    {
        &self.paths
    }

    /// The index of the highlighted line.
    pub fn selected(&self) -> (index: usize)
        ensures
            index == self@.selected,
            self@.cursor_in_bounds(),
            self@.paths.len() > 0 ==> index < self@.paths.len(),
    {
        proof {
            use_type_invariant(self);
        }
        self.selected
    }

    /// The path under the cursor; `None` on an empty list.
    pub fn selected_path(&self) -> (path: Option<&String>)
        ensures
            match path {
                Some(p) => self@.current() == Some(p@),
                None => self@.current().is_none() && self@.paths.len() == 0,
            },
    {
        proof {
            use_type_invariant(self);
        }
        if self.selected < self.paths.len() {
            Some(&self.paths[self.selected])
        } else {
            None
        }
    }

    /// Whether the list holds `path`.
    pub fn contains(&self, path: &String) -> (found: bool)
        ensures
            found == self@.paths.contains(path@),
    {
        holds(&self.paths, path)
    }

    /// Moves the cursor one line up; on the first line it stays.
    pub fn move_up(&mut self)
        ensures
            final(self)@ == old(self)@.move_up(),
            final(self)@.cursor_in_bounds(),
    {
        proof {
            use_type_invariant(&*self);
        }
        if self.selected > 0 {
            self.selected = self.selected - 1;
        }
    }

    /// Moves the cursor one line down; on the last line it stays.
    pub fn move_down(&mut self)
        ensures
            final(self)@ == old(self)@.move_down(),
            final(self)@.cursor_in_bounds(),
    {
        proof {
            use_type_invariant(&*self);
        }
        if self.selected + 1 < self.paths.len() {
            self.selected = self.selected + 1;
        }
    }

    /// Takes the list out, leaving an empty session behind.
    fn take_paths(&mut self) -> (paths: Vec<String>)
        ensures
            paths == old(self).paths,
            final(self).paths@.len() == 0,
            final(self).selected == 0,
    {
        let mut paths: Vec<String> = Vec::new();
        self.selected = 0;
        std::mem::swap(&mut paths, &mut self.paths);
        paths
    }

    /// Appends `path` unless the list holds it already, then puts the cursor
    /// on the last line.
    pub fn add(&mut self, path: String)
        ensures
            final(self)@ == old(self)@.add(path@),
            final(self)@.cursor_in_bounds(),
            final(self)@.paths.contains(path@),
            old(self)@.paths.no_duplicates() ==> final(self)@.paths.no_duplicates(),
    {
        let ghost before = self@;
        let mut paths = self.take_paths();
        if !holds(&paths, &path) {
            paths.push(path);
            proof {
                assert(paths.deep_view() =~= before.paths.push(path@));
                assert(paths.deep_view()[paths.len() - 1] == path@);
            }
        }
        let last: usize = paths.len() - 1;
        *self = Session { paths, selected: last };
    }

    /// Removes the line under the cursor and pulls the cursor back onto the
    /// list. On an empty list nothing happens.
    pub fn delete_selected(&mut self)
        ensures
            final(self)@ == old(self)@.delete(),
            final(self)@.cursor_in_bounds(),
            old(self)@.paths.len() == 0 ==> final(self)@ == old(self)@,
            old(self)@.paths.no_duplicates() ==> final(self)@.paths.no_duplicates(),
    {
        proof {
            use_type_invariant(&*self);
        }
        let at: usize = self.selected;
        if at < self.paths.len() {
            let ghost before = self@;
            let mut paths = self.take_paths();
            paths.remove(at);
            proof {
                assert(paths.deep_view() =~= before.paths.remove(at as int));
            }
            let selected: usize = if at < paths.len() {
                at
            } else if paths.len() > 0 {
                paths.len() - 1
            } else {
                0
            };
            *self = Session { paths, selected };
        }
    }
}

/// Adding the same path a second time changes nothing.
pub proof fn lemma_add_is_idempotent(s: SessionView, path: Seq<char>)
    ensures
        s.add(path).add(path) == s.add(path),
{
    let once = s.add(path);
    if !s.paths.contains(path) {
        assert(once.paths[s.paths.len() as int] == path);
    }
}

/// A path that the list holds at most once is held exactly once after it
/// was added twice.
pub proof fn lemma_add_twice_holds_once(s: SessionView, path: Seq<char>)
    requires
        s.occurrences(path) <= 1,
    ensures
        s.add(path).add(path).occurrences(path) == 1,
{
    lemma_add_is_idempotent(s, path);
    s.paths.to_multiset_ensures();
}

} // verus!
