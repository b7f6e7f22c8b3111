use vstd::prelude::*;

use crate::content_map::{relevant, ContentMap};

verus! {

/// What the filesystem reports a path to be.
#[derive(PartialEq, Eq, Structural, Debug, Clone, Copy)]
pub enum EntryKind {
    Directory,
    File,
    /// Neither: a symbolic link, a device, a socket.
    Other,
}

/// Whether a path is the target of a request or was met inside it. A scan of
/// the target goes down into its subdirectories; a nested scan does not.
#[derive(PartialEq, Eq, Structural, Debug, Clone, Copy)]
pub enum Depth {
    TopLevel,
    Nested,
}

/// The depth that a numeric limit flag stands for: zero is the top level.
pub fn depth_of_limit(limit: i32) -> (r: Depth)
    ensures
        r == (if limit == 0 {
            Depth::TopLevel
        } else {
            Depth::Nested
        }),
{
    if limit == 0 {
        Depth::TopLevel
    } else {
        Depth::Nested
    }
}

/// What to do with a path once its kind is known.
#[derive(PartialEq, Eq, Structural, Debug, Clone, Copy)]
pub enum PathAction {
    /// Scan the directory's entries.
    ScanDirectory,
    /// Read the one file; its content is keyed by the full path.
    ReadFile,
    /// Report nothing: the result is the empty map.
    Nothing,
}

/// The action for a path of kind `kind` met at `depth`.
pub open spec fn path_action_spec(kind: EntryKind, depth: Depth) -> PathAction {
    match kind {
        EntryKind::Directory => if depth == Depth::TopLevel {
            PathAction::ScanDirectory
        } else {
            PathAction::Nothing
        },
        EntryKind::File => PathAction::ReadFile,
        EntryKind::Other => PathAction::Nothing,
    }
}

/// Classifies a path: a top-level directory is scanned, a nested one gives
/// nothing, a file is read, anything else gives nothing.
pub fn path_action(kind: EntryKind, depth: Depth) -> (r: PathAction)
    ensures
        r == path_action_spec(kind, depth),
{
    match kind {
        EntryKind::Directory => {
            if depth == Depth::TopLevel {
                PathAction::ScanDirectory
            } else {
                PathAction::Nothing
            }
        },
        EntryKind::File => PathAction::ReadFile,
        EntryKind::Other => PathAction::Nothing,
    }
}

/// The result for a path that is a single file: one entry, keyed by the path.
pub fn single_file(path: &str, text: String) -> (r: ContentMap)
    ensures
        r.wf(),
        r@ == map![path@ => text@],
{
    let mut r = ContentMap::new();
    r.insert(path.to_string(), text);
    proof {
        assert(r@ =~= map![path@ => text@]);
    }
    r
}

/// The key of a file met in a directory: its bare name, or its full path
/// where the name cannot be had as text.
pub fn entry_key(file_name: Option<String>, full_path: String) -> (r: String)
    ensures
        r@ == (match file_name {
            Some(n) => n@,
            None => full_path@,
        }),
{
    match file_name {
        Some(n) => n,
        None => full_path,
    }
}

/// What a scan does with one entry of its directory.
#[derive(PartialEq, Eq, Structural, Debug, Clone, Copy)]
pub enum EntryAction {
    /// Read the file; its content is keyed by its bare name.
    ReadFile,
    /// Scan the subdirectory as a nested scan and add what it reports.
    ScanNested,
    /// Pass the entry over.
    Skip,
}

/// The action for an entry of kind `kind` met by a scan at `depth`: only a
/// top-level scan goes down into a subdirectory, so exactly one level below
/// the target is scanned.
pub open spec fn entry_action_spec(kind: EntryKind, depth: Depth) -> EntryAction {
    match kind {
        EntryKind::File => EntryAction::ReadFile,
        EntryKind::Directory => if depth == Depth::TopLevel {
            EntryAction::ScanNested
        } else {
            EntryAction::Skip
        },
        EntryKind::Other => EntryAction::Skip,
    }
}

/// A scan of one directory in progress: what its entries gave so far.
pub struct DirectoryScan {
    depth: Depth,
    found: ContentMap,
}

impl View for DirectoryScan {
    type V = Map<Seq<char>, Seq<char>>;

    closed spec fn view(&self) -> Map<Seq<char>, Seq<char>> {
        self.found@
    }
}

impl DirectoryScan {
    /// What was found so far is a well-formed map.
    pub closed spec fn wf(&self) -> bool {
        self.found.wf()
    }

    /// Whether this scan is of the target itself or of a subdirectory of it.
    pub closed spec fn depth(&self) -> Depth {
        self.depth
    }

    pub fn new(depth: Depth) -> (r: DirectoryScan)
        ensures
            r.wf(),
            r.depth() == depth,
            r@ == Map::<Seq<char>, Seq<char>>::empty(),
    {
        DirectoryScan { depth, found: ContentMap::new() }
    }

    /// What to do with an entry of the directory: a file is read, a
    /// subdirectory is scanned where this scan is top-level and passed over
    /// otherwise, anything else is passed over.
    pub fn entry_action(&self, kind: EntryKind) -> (r: EntryAction)
        ensures
            r == entry_action_spec(kind, self.depth()),
    {
        match kind {
            EntryKind::File => EntryAction::ReadFile,
            EntryKind::Directory => {
                if self.depth == Depth::TopLevel {
                    EntryAction::ScanNested
                } else {
                    EntryAction::Skip
                }
            },
            EntryKind::Other => EntryAction::Skip,
        }
    }

    /// Records the content of a file; a later entry with the same key wins.
    pub fn add_file(&mut self, key: String, text: String)
        requires
            old(self).wf(),
        ensures
            final(self).wf(),
            final(self).depth() == old(self).depth(),
            final(self)@ == old(self)@.insert(key@, text@),
    {
        self.found.insert(key, text);
    }

    /// Records what the nested scan of a subdirectory reported; its keys win
    /// over those already found. Only a top-level scan has subdirectories
    /// scanned.
    pub fn add_subdirectory(&mut self, sub: &ContentMap)
        requires
            old(self).wf(),
            old(self).depth() == Depth::TopLevel,
            sub.wf(),
        ensures
            final(self).wf(),
            final(self).depth() == old(self).depth(),
            final(self)@ == old(self)@.union_prefer_right(sub@),
    {
        self.found.merge(sub);
    }

    /// The result of the scan: the entries with text whose keys end in
    /// `.pdf` or `.csv`.
    pub fn finish(&self) -> (r: ContentMap)
        requires
            self.wf(),
        ensures
            r.wf(),
            r@ == relevant(self@),
    {
        self.found.only_relevant()
    }
}

} // verus!
