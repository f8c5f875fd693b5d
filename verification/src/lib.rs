//! Bookmarks for directories: an ordered list of paths, the file it is kept
//! in, and the interactive session that edits it.
//!
//! The crate performs no input or output of its own. Where a file has to be
//! read, the caller hands in what it found; where one has to be written, the
//! caller receives a [`WriteOrder`] and carries it out.

use vstd::prelude::*;

pub mod json;
pub mod session;
pub mod tui;

verus! {

/// Why a list could not be loaded or saved.
#[derive(Clone, Copy, Debug, PartialEq, Eq, Structural)]
pub enum StoreError {
    /// There is no bookmark file.
    NotFound,
    /// The bookmark file does not hold a list of strings.
    ParseError,
    /// The list could not be written out.
    IoError,
}

/// A file that the host has to write: where, and what.
#[derive(Debug)]
pub struct WriteOrder {
    /// The file to create or overwrite.
    pub path: String,
    /// The text that the file is to hold.
    pub contents: String,
}

/// The bookmark list together with the file it is bound to.
#[derive(Debug)]
pub struct SavePoints {
    /// The bookmarked paths, in the order in which they were added.
    pub memories: Vec<String>,
    /// The file that the list is loaded from and saved to.
    pub memory_path: String,
}

/// What [`SavePoints::init`] found: the store, and the reason if it had to
/// start from an empty list.
#[derive(Debug)]
pub struct Opened {
    /// The store to work with, bound to the directory's bookmark file.
    pub store: SavePoints,
    /// Why the store starts empty, where the bookmark file could not be used.
    pub fallback: Option<StoreError>,
}

/// The name of the bookmark file: `memories.json` in the directory `dir`.
///
/// A separator is put between the two unless `dir` is empty or ends in one.
pub open spec fn memory_file(dir: Seq<char>) -> Seq<char> {
    if dir.len() == 0 || dir.last() == '/' {
        dir + "memories.json"@
    } else {
        dir.push('/') + "memories.json"@
    }
}

/// What loading makes of a file: its list, `NotFound` where there is no
/// file, `ParseError` where its text is no list of strings.
pub open spec fn loaded(contents: Option<Seq<char>>) -> Result<Seq<Seq<char>>, StoreError> {
    match contents {
        None => Err(StoreError::NotFound),
        Some(text) => match json::json_paths(text) {
            Some(paths) => Ok(paths),
            None => Err(StoreError::ParseError),
        },
    }
}

/// The text that saving a list gives: its JSON text, where there is one and
/// it reads back as the same list.
pub open spec fn saved(paths: Seq<Seq<char>>) -> Option<Seq<char>> {
    match json::json_text(paths) {
        Some(text) => if json::json_paths(text) == Some(paths) {
            Some(text)
        } else {
            None
        },
        None => None,
    }
}

/// Whether two lists hold the same strings in the same order.
fn same_list(a: &Vec<String>, b: &Vec<String>) -> (same: bool)
    ensures
        same == (a.deep_view() == b.deep_view()),
{
    if a.len() != b.len() {
        assert(a.deep_view().len() != b.deep_view().len());
        return false;
    }
    let mut i: usize = 0;
    while i < a.len()
        invariant
            i <= a.len(),
            a.len() == b.len(),
            forall|j: int| 0 <= j < i ==> a[j]@ == b[j]@,
        decreases a.len() - i,
    {
        if a[i] != b[i] {
            assert(a.deep_view()[i as int] != b.deep_view()[i as int]);
            return false;
        }
        i += 1;
    }
    assert(a.deep_view() =~= b.deep_view());
    true
}

impl Default for SavePoints {
    fn default() -> (store: Self)
        ensures
            store.paths() == Seq::<Seq<char>>::empty(),
            store.memory_path@ == Seq::<char>::empty(),
    {
        SavePoints::new()
    }
}

impl SavePoints {
    /// The bookmarked paths as contracts see them.
    pub open spec fn paths(&self) -> Seq<Seq<char>> {
        self.memories.deep_view()
    }

    /// An empty list, bound to no file yet.
    pub fn new() -> (store: Self)
        ensures
            store.paths() == Seq::<Seq<char>>::empty(),
            store.memory_path@ == Seq::<char>::empty(),
    {
        SavePoints { memories: Vec::new(), memory_path: String::new() }
    }

    /// The bookmark file of the directory `dir`.
    pub fn memory_file_in(dir: &str) -> (file: String)
        ensures
            file@ == memory_file(dir@),
    {
        let n: usize = dir.unicode_len();
        let mut file = dir.to_owned();
        if n > 0 && dir.get_char(n - 1) != '/' {
            file.append("/");
            proof {
                reveal_strlit("/");
                assert(file@ =~= dir@.push('/'));
            }
        }
        file.append("memories.json");
        file
    }

    /// The store that a decoded bookmark file gives.
    pub fn from_decoded(path: &str, decoded: Result<Vec<String>, serde_json::Error>) -> (store: Result<
        SavePoints,
        StoreError,
    >)
        ensures
            match decoded {
                Ok(list) => store matches Ok(s) && s.paths() == list.deep_view() && s.memory_path@
                    == path@,
                Err(_) => store matches Err(e) && e == StoreError::ParseError,
            },
    {
        match decoded {
            Ok(list) => Ok(SavePoints { memories: list, memory_path: path.to_owned() }),
            Err(_) => Err(StoreError::ParseError),
        }
    }

    /// Loads the list from the text of the file `path`. `contents` is what the
    /// caller read there, `None` where there is no such file.
    pub fn load_memory(path: &str, contents: Option<&str>) -> (store: Result<SavePoints, StoreError>)
        ensures
            match loaded(contents.deep_view()) {
                Ok(list) => store matches Ok(s) && s.paths() == list && s.memory_path@ == path@,
                Err(reason) => store matches Err(e) && e == reason,
            },
    {
        match contents {
            None => Err(StoreError::NotFound),
            Some(text) => Self::from_decoded(path, json::decode(text)),
        }
    }

    /// The store to start with: the loaded one, or an empty one bound to
    /// `file` where loading failed, with the reason.
    pub fn or_empty(found: Result<SavePoints, StoreError>, file: String) -> (opened: Opened)
        ensures
            match found {
                Ok(s) => opened.store == s && opened.fallback.is_none(),
                Err(reason) => opened.store.paths() == Seq::<Seq<char>>::empty()
                    && opened.store.memory_path@ == file@ && opened.fallback == Some(reason),
            },
    {
        match found {
            Ok(store) => Opened { store, fallback: None },
            Err(reason) => Opened {
                store: SavePoints { memories: Vec::new(), memory_path: file },
                fallback: Some(reason),
            },
        }
    }

    /// Opens the store of the directory `save_path`. `contents` is the text of
    /// the directory's bookmark file, `None` where there is no such file.
    ///
    /// Where the file is missing or does not hold a list, the store starts
    /// empty and `fallback` says why.
    pub fn init(save_path: &str, contents: Option<&str>) -> (opened: Opened)
        ensures
            opened.store.memory_path@ == memory_file(save_path@),
            match loaded(contents.deep_view()) {
                Ok(list) => opened.store.paths() == list && opened.fallback.is_none(),
                Err(reason) => opened.store.paths() == Seq::<Seq<char>>::empty()
                    && opened.fallback == Some(reason),
            },
            contents.is_none() ==> opened.store.paths() == Seq::<Seq<char>>::empty()
                && opened.fallback == Some(StoreError::NotFound),
    {
        let file = Self::memory_file_in(save_path);
        let found = Self::load_memory(file.as_str(), contents);
        Self::or_empty(found, file)
    }

    /// Adds `path` at the end of the list.
    pub fn append_location(&mut self, path: &str)
        ensures
            final(self).paths() == old(self).paths().push(path@),
            final(self).memory_path == old(self).memory_path,
    {
        self.memories.push(path.to_owned());
    }

    /// The order that writes `text` to `path`, given what reading `text` back
    /// gave: an order where that is this list, and `IoError` where it is
    /// another list or none.
    pub fn checked_order(
        &self,
        path: &str,
        text: String,
        read_back: Result<Vec<String>, serde_json::Error>,
    ) -> (order: Result<WriteOrder, StoreError>)
        ensures
            match read_back {
                Ok(list) if list.deep_view() == self.paths() => order matches Ok(o) && o.path@
                    == path@ && o.contents@ == text@,
                _ => order matches Err(e) && e == StoreError::IoError,
            },
    {
        match read_back {
            Ok(list) => {
                if same_list(&list, &self.memories) {
                    Ok(WriteOrder { path: path.to_owned(), contents: text })
                } else {
                    Err(StoreError::IoError)
                }
            },
            Err(_) => Err(StoreError::IoError),
        }
    }

    /// The order that saves the list to the file `path`.
    ///
    /// The list is encoded and the text read back before it is handed out,
    /// so an order is given only for a text that loads as this list.
    pub fn save_memory(&self, path: &str) -> (order: Result<WriteOrder, StoreError>)
        ensures
            match saved(self.paths()) {
                Some(text) => order matches Ok(o) && o.path@ == path@ && o.contents@ == text,
                None => order matches Err(e) && e == StoreError::IoError,
            },
            order matches Ok(o) ==> loaded(Some(o.contents@)) == Ok::<_, StoreError>(self.paths()),
    {
        match json::encode(&self.memories) {
            Ok(text) => {
                let read_back = json::decode(text.as_str());
                self.checked_order(path, text, read_back)
            },
            Err(_) => Err(StoreError::IoError),
        }
    }

    /// The order that saves the list to the file it is bound to.
    pub fn save_to_self_path(&self) -> (order: Result<WriteOrder, StoreError>)
        ensures
            match saved(self.paths()) {
                Some(text) => order matches Ok(o) && o.path@ == self.memory_path@ && o.contents@
                    == text,
                None => order matches Err(e) && e == StoreError::IoError,
            },
            order matches Ok(o) ==> loaded(Some(o.contents@)) == Ok::<_, StoreError>(self.paths()),
    {
        self.save_memory(self.memory_path.as_str())
    }
}

/// Saving and then loading gives the list back: the text that saving hands
/// out for a list loads as that list, in the same order.
pub proof fn lemma_saved_text_loads_back(paths: Seq<Seq<char>>)
    ensures
        saved(paths) matches Some(text) ==> loaded(Some(text)) == Ok::<_, StoreError>(paths),
{
}

} // verus!
