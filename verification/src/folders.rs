//! Which bot folders and bot files the launcher knows, and which of them it
//! shows.
//!
//! Reading these settings from the configuration file and writing them back
//! are the caller's to perform; here is what they hold and how they change.

use crate::text::same_text;
use vstd::prelude::*;

verus! {

/// What is kept about one folder or file.
#[derive(Clone, Copy, Debug, PartialEq, Eq, Structural)]
pub struct BotFolder {
    /// Whether the bots found there are shown.
    pub visible: bool,
}

/// One path with what is kept about it.
struct FolderEntry {
    path: String,
    folder: BotFolder,
}

/// Whether no path occurs twice among `entries`.
spec fn distinct_paths(entries: Seq<FolderEntry>) -> bool {
    forall|i: int, j: int|
        0 <= i < j < entries.len() ==> (#[trigger] entries[i]).path@ != (#[trigger] entries[j]).path@
}

/// The map from path to settings that `entries` spell out, a later entry
/// winning over an earlier one with the same path.
spec fn table_of(entries: Seq<FolderEntry>) -> Map<Seq<char>, BotFolder>
    decreases entries.len(),
{
    if entries.len() == 0 {
        Map::empty()
    } else {
        table_of(entries.drop_last()).insert(entries.last().path@, entries.last().folder)
    }
}

/// With no path twice, the map holds exactly the entries: each path maps to
/// its own entry's settings, and every key is the path of some entry.
proof fn lemma_table_of(entries: Seq<FolderEntry>)
    requires
        distinct_paths(entries),
    ensures
        table_of(entries).dom().finite(),
        forall|i: int|
            0 <= i < entries.len() ==> table_of(entries).dom().contains(
                (#[trigger] entries[i]).path@,
            ) && table_of(entries)[entries[i].path@] == entries[i].folder,
        forall|path: Seq<char>| #[trigger]
            table_of(entries).dom().contains(path) ==> exists|i: int|
                0 <= i < entries.len() && (#[trigger] entries[i]).path@ == path,
    decreases entries.len(),
{
    if entries.len() > 0 {
        let front = entries.drop_last();
        lemma_table_of(front);
        assert forall|i: int| 0 <= i < entries.len() implies table_of(entries).dom().contains(
            (#[trigger] entries[i]).path@,
        ) && table_of(entries)[entries[i].path@] == entries[i].folder by {
            if i < entries.len() - 1 {
                assert(front[i] == entries[i]);
            }
        }
    }
}

/// Settings by path: a finite map from the path of a folder or file to what
/// is kept about it.
pub struct FolderTable {
    entries: Vec<FolderEntry>,
}

impl View for FolderTable {
    type V = Map<Seq<char>, BotFolder>;

    closed spec fn view(&self) -> Map<Seq<char>, BotFolder> {
        table_of(self.entries@)
    }
}

impl FolderTable {
    #[verifier::type_invariant]
    spec fn no_path_twice(self) -> bool {
        distinct_paths(self.entries@)
    }

    /// A table without entries.
    pub fn new() -> (table: Self)
        ensures
            table@ == Map::<Seq<char>, BotFolder>::empty(),
    {
        FolderTable { entries: Vec::new() }
    }

    fn position(&self, path: &str) -> (found: Option<usize>)
        ensures
            match found {
                Some(i) => i < self.entries@.len() && self.entries@[i as int].path@ == path@,
                None => forall|i: int|
                    0 <= i < self.entries@.len() ==> (#[trigger] self.entries@[i]).path@ != path@,
            },
    {
        let mut i: usize = 0;
        while i < self.entries.len()
            invariant
                i <= self.entries@.len(),
                forall|k: int| 0 <= k < i ==> (#[trigger] self.entries@[k]).path@ != path@,
            decreases self.entries@.len() - i,
        {
            if same_text(self.entries[i].path.as_str(), path) {
                return Some(i);
            }
            i += 1;
        }
        None
    }

    /// What is kept about `path`, if the table knows it.
    pub fn get(&self, path: &str) -> (kept: Option<BotFolder>)
        ensures
            kept == if self@.dom().contains(path@) {
                Some(self@[path@])
            } else {
                None
            },
    {
        proof {
            use_type_invariant(&*self);
            lemma_table_of(self.entries@);
        }
        match self.position(path) {
            Some(i) => Some(self.entries[i].folder),
            None => None,
        }
    }

    /// Keeps `folder` for `path`, in place of what was kept for it before.
    pub fn insert(&mut self, path: String, folder: BotFolder)
        ensures
            final(self)@ == old(self)@.insert(path@, folder),
    {
        proof {
            use_type_invariant(&*self);
            lemma_table_of(self.entries@);
        }
        let found = self.position(path.as_str());
        let mut entries: Vec<FolderEntry> = Vec::new();
        std::mem::swap(&mut entries, &mut self.entries);
        match found {
            Some(i) => {
                let ghost before = entries@;
                entries[i] = FolderEntry { path, folder };
                proof {
                    lemma_table_of(entries@);
                    assert forall|key: Seq<char>|
                        table_of(before).insert(path@, folder).dom().contains(key) implies #[trigger]
                        table_of(entries@).dom().contains(key) && table_of(entries@)[key]
                        == table_of(before).insert(path@, folder)[key] by {
                        if key != path@ {
                            let k = choose|k: int|
                                0 <= k < before.len() && (#[trigger] before[k]).path@ == key;
                            assert(entries@[k].path@ == key);
                        }
                    }
                }
            },
            None => {
                let ghost before = entries@;
                entries.push(FolderEntry { path, folder });
                proof {
                    assert(entries@.drop_last() =~= before);
                }
            },
        }
        self.entries = entries;
    }

    /// The paths that the table knows, each once.
    pub fn paths(&self) -> (paths: Vec<String>)
        ensures
            forall|path: Seq<char>|
                self@.dom().contains(path) <==> exists|i: int|
                    0 <= i < paths@.len() && (#[trigger] paths@[i])@ == path,
            forall|i: int, j: int|
                0 <= i < j < paths@.len() ==> (#[trigger] paths@[i])@ != (#[trigger] paths@[j])@,
    {
        proof {
            use_type_invariant(&*self);
            lemma_table_of(self.entries@);
        }
        let mut paths: Vec<String> = Vec::new();
        let mut i: usize = 0;
        while i < self.entries.len()
            invariant
                i <= self.entries@.len(),
                paths@.len() == i,
                forall|k: int| 0 <= k < i ==> (#[trigger] paths@[k]) == self.entries@[k].path,
            decreases self.entries@.len() - i,
        {
            paths.push(self.entries[i].path.clone());
            i += 1;
        }
        proof {
            assert forall|path: Seq<char>| self@.dom().contains(path) implies exists|i: int|
                0 <= i < paths@.len() && (#[trigger] paths@[i])@ == path by {
                let k = choose|k: int|
                    0 <= k < self.entries@.len() && (#[trigger] self.entries@[k]).path@ == path;
                assert(paths@[k]@ == path);
            }
        }
        paths
    }

    /// The paths that are shown, each once: those whose settings say
    /// `visible`.
    pub fn visible_paths(&self) -> (paths: Vec<String>)
        ensures
            forall|path: Seq<char>|
                self@.dom().contains(path) && self@[path].visible <==> exists|i: int|
                    0 <= i < paths@.len() && (#[trigger] paths@[i])@ == path,
            forall|i: int, j: int|
                0 <= i < j < paths@.len() ==> (#[trigger] paths@[i])@ != (#[trigger] paths@[j])@,
    {
        proof {
            use_type_invariant(&*self);
            lemma_table_of(self.entries@);
        }
        let mut paths: Vec<String> = Vec::new();
        let ghost mut origin: Seq<int> = Seq::empty();
        let mut i: usize = 0;
        while i < self.entries.len()
            invariant
                i <= self.entries@.len(),
                origin.len() == paths@.len(),
                forall|k: int|
                    0 <= k < origin.len() ==> 0 <= (#[trigger] origin[k]) < i
                        && self.entries@[origin[k]].folder.visible && paths@[k]
                        == self.entries@[origin[k]].path,
                forall|a: int, b: int|
                    0 <= a < b < origin.len() ==> (#[trigger] origin[a]) < (#[trigger] origin[b]),
                forall|e: int|
                    0 <= e < i && (#[trigger] self.entries@[e]).folder.visible ==> exists|k: int|
                        0 <= k < origin.len() && (#[trigger] origin[k]) == e,
            decreases self.entries@.len() - i,
        {
            if self.entries[i].folder.visible {
                paths.push(self.entries[i].path.clone());
                proof {
                    let ghost earlier = origin;
                    origin = origin.push(i as int);
                    assert forall|e: int|
                        0 <= e < i + 1 && (#[trigger] self.entries@[e]).folder.visible implies exists|
                        k: int,
                    | 0 <= k < origin.len() && (#[trigger] origin[k]) == e by {
                        if e < i {
                            let k = choose|k: int|
                                0 <= k < earlier.len() && (#[trigger] earlier[k]) == e;
                            assert(origin[k] == e);
                        } else {
                            assert(origin[origin.len() - 1] == e);
                        }
                    }
                }
            }
            i += 1;
        }
        proof {
            assert forall|path: Seq<char>|
                (exists|i: int| 0 <= i < paths@.len() && (#[trigger] paths@[i])@ == path)
                    implies self@.dom().contains(path) && self@[path].visible by {
                let k = choose|k: int| 0 <= k < paths@.len() && (#[trigger] paths@[k])@ == path;
                assert(self.entries@[origin[k]].path@ == path);
            }
            assert forall|i: int, j: int| 0 <= i < j < paths@.len() implies (#[trigger] paths@[i])@
                != (#[trigger] paths@[j])@ by {
                assert(self.entries@[origin[i]].path@ != self.entries@[origin[j]].path@);
            }
        }
        paths
    }
}

/// The folders and the single files in which the launcher looks for bots.
pub struct BotFolderSettings {
    /// Bot configuration files that were added one by one.
    pub files: FolderTable,
    /// Folders that are searched for bots.
    pub folders: FolderTable,
}

impl BotFolderSettings {
    /// Settings that know no file and no folder.
    pub fn new() -> (settings: Self)
        ensures
            settings.files@ == Map::<Seq<char>, BotFolder>::empty(),
            settings.folders@ == Map::<Seq<char>, BotFolder>::empty(),
    {
        BotFolderSettings { files: FolderTable::new(), folders: FolderTable::new() }
    }

    /// Takes over the files and folders of `bfs`.
    pub fn update_config(&mut self, bfs: Self)
        ensures
            final(self).files@ == bfs.files@,
            final(self).folders@ == bfs.folders@,
    {
        self.files = bfs.files;
        self.folders = bfs.folders;
    }

    /// Adds the folder at `path` and shows it. A folder that was known
    /// already is shown again.
    pub fn add_folder(&mut self, path: String)
        ensures
            final(self).folders@ == old(self).folders@.insert(path@, (BotFolder { visible: true })),
            final(self).files@ == old(self).files@,
    {
        self.folders.insert(path, BotFolder { visible: true });
    }

    /// Adds the file at `path` and shows it. A file that was known already is
    /// shown again.
    pub fn add_file(&mut self, path: String)
        ensures
            final(self).files@ == old(self).files@.insert(path@, (BotFolder { visible: true })),
            final(self).folders@ == old(self).folders@,
    {
        self.files.insert(path, BotFolder { visible: true });
    }
}

} // verus!
