//! The part of a worktree that a decision may look at.
//!
//! The host reads files on request and cannot list them. A [`Worktree`] here
//! is what the host has read so far: the root path, and the text of each file
//! that could be read. A file that is not recorded counts as unreadable.

use vstd::prelude::*;

verus! {

/// A worktree as mathematics sees it: a root path and a partial map from
/// relative paths to file contents.
#[verifier::ext_equal]
pub struct WorktreeView {
    pub root_path: Seq<char>,
    pub files: Map<Seq<char>, Seq<char>>,
}

impl WorktreeView {
    /// Whether the file at `path` can be read.
    pub open spec fn readable(self, path: Seq<char>) -> bool {
        self.files.contains_key(path)
    }

    /// The text of the file at `path`, if it can be read.
    pub open spec fn read_text_file(self, path: Seq<char>) -> Option<Seq<char>> {
        if self.files.contains_key(path) {
            Some(self.files[path])
        } else {
            None
        }
    }
}

/// The files recorded by `entries`, a later entry replacing an earlier one
/// for the same path.
spec fn recorded_files(entries: Seq<(Seq<char>, Seq<char>)>) -> Map<Seq<char>, Seq<char>>
    decreases entries.len(),
{
    if entries.len() == 0 {
        Map::empty()
    } else {
        recorded_files(entries.drop_last()).insert(entries.last().0, entries.last().1)
    }
}

/// Where the last entry for `path` stands at index `at`, that entry's text is
/// what `recorded_files` holds for `path`.
proof fn lemma_last_entry_wins(entries: Seq<(Seq<char>, Seq<char>)>, path: Seq<char>, at: int)
    requires
        0 <= at < entries.len(),
        entries[at].0 == path,
        forall|j: int| at < j < entries.len() ==> entries[j].0 != path,
    ensures
        recorded_files(entries).contains_key(path),
        recorded_files(entries)[path] == entries[at].1,
    decreases entries.len(),
{
    if at < entries.len() - 1 {
        lemma_last_entry_wins(entries.drop_last(), path, at);
    }
}

/// Where no entry is for `path`, `recorded_files` holds nothing for it.
proof fn lemma_no_entry_no_file(entries: Seq<(Seq<char>, Seq<char>)>, path: Seq<char>)
    requires
        forall|j: int| 0 <= j < entries.len() ==> entries[j].0 != path,
    ensures
        !recorded_files(entries).contains_key(path),
    decreases entries.len(),
{
    if entries.len() > 0 {
        lemma_no_entry_no_file(entries.drop_last(), path);
    }
}

/// What the host has read of one worktree.
#[derive(Debug, Clone)]
pub struct Worktree {
    root_path: String,
    entries: Vec<(String, String)>,
}

impl View for Worktree {
    type V = WorktreeView;

    closed spec fn view(&self) -> WorktreeView {
        WorktreeView {
            root_path: self.root_path@,
            files: recorded_files(self.entries.deep_view()),
        }
    }
}

impl Worktree {
    /// A worktree rooted at `root_path` of which no file has been read.
    pub fn new(root_path: String) -> (worktree: Worktree)
        ensures
            worktree@.root_path == root_path@,
            worktree@.files == Map::<Seq<char>, Seq<char>>::empty(),
    {
        Worktree { root_path, entries: Vec::new() }
    }

    /// Records that the file at `path` was read and held `contents`. A second
    /// record for one path replaces the first.
    pub fn insert(&mut self, path: String, contents: String)
        ensures
            final(self)@.root_path == old(self)@.root_path,
            final(self)@.files == old(self)@.files.insert(path@, contents@),
    {
        let ghost before = self.entries.deep_view();
        self.entries.push((path, contents));
        assert(self.entries.deep_view().drop_last() =~= before);
    }

    /// The root path of the worktree.
    pub fn root_path(&self) -> (root: &str)
        ensures
            root@ == self@.root_path,
    {
        self.root_path.as_str()
    }

    /// The text of the file at `path`, or `None` where the file could not be
    /// read.
    pub fn read_text_file(&self, path: &str) -> (contents: Option<&String>)
        ensures
            contents.deep_view() == self@.read_text_file(path@),
    {
        let wanted = path.to_string();
        let ghost entries = self.entries.deep_view();
        let mut at = self.entries.len();
        while at > 0
            invariant
                at <= self.entries.len(),
                wanted@ == path@,
                entries == self.entries.deep_view(),
                forall|j: int| at <= j < entries.len() ==> entries[j].0 != path@,
            decreases at,
        {
            at -= 1;
            if self.entries[at].0 == wanted {
                proof {
                    lemma_last_entry_wins(entries, path@, at as int);
                }
                return Some(&self.entries[at].1);
            }
        }
        proof {
            lemma_no_entry_no_file(entries, path@);
        }
        None
    }
}

} // verus!
