//! File metadata records and the text functions behind them: taking the file
//! name and the extension out of a path, and rendering timestamps.
//!
//! Paths are plain text with `/` as the separator. The file name of a path
//! is its last component: everything after the last separator, with trailing
//! separators ignored (so only a path of separators alone, or an empty one,
//! has an empty file name); the extension is the part of the file name after
//! its last dot, provided that dot is not the name's first character.

use crate::strutil::{decimal_string, u64_to_string};
use vstd::prelude::*;
use vstd::string::StrSliceExecFns;
use vstd::string::StringExecFns;

verus! {

/// The path with its trailing separators dropped.
pub open spec fn strip_trailing_separators(p: Seq<char>) -> Seq<char>
    decreases p.len(),
{
    if p.len() > 0 && p[p.len() - 1] == '/' {
        strip_trailing_separators(p.drop_last())
    } else {
        p
    }
}

/// The suffix of a path after its last `/`.
pub open spec fn name_suffix(p: Seq<char>) -> Seq<char>
    decreases p.len(),
{
    if p.len() == 0 {
        p
    } else if p[p.len() - 1] == '/' {
        Seq::empty()
    } else {
        name_suffix(p.drop_last()).push(p[p.len() - 1])
    }
}

/// The file name of a path: its last component -- everything after the last
/// `/`, with trailing separators ignored.
pub open spec fn file_name_of(p: Seq<char>) -> Seq<char> {
    name_suffix(strip_trailing_separators(p))
}

/// The extension of a file name: everything after the last dot, unless the
/// only dot leads the name.
pub open spec fn extension_of_name(n: Seq<char>) -> Option<Seq<char>>
    decreases n.len(),
{
    if n.len() <= 1 {
        None
    } else if n[n.len() - 1] == '.' {
        Some(Seq::empty())
    } else {
        match extension_of_name(n.drop_last()) {
            Some(e) => Some(e.push(n[n.len() - 1])),
            None => None,
        }
    }
}

/// The extension of a path: the extension of its file name.
pub open spec fn extension_of(p: Seq<char>) -> Option<Seq<char>> {
    extension_of_name(file_name_of(p))
}

/// A path without separators is its own name suffix.
proof fn lemma_name_suffix_no_slash(p: Seq<char>)
    requires
        forall|l: int| 0 <= l < p.len() ==> (#[trigger] p[l]) != '/',
    ensures
        name_suffix(p) == p,
    decreases p.len(),
{
    if p.len() > 0 {
        lemma_name_suffix_no_slash(p.drop_last());
        assert(name_suffix(p) =~= p);
    }
}

/// Past its last separator, a path is its own name suffix.
proof fn lemma_name_suffix_after_slash(p: Seq<char>, j: int)
    requires
        0 <= j < p.len(),
        p[j] == '/',
        forall|l: int| j < l < p.len() ==> (#[trigger] p[l]) != '/',
    ensures
        name_suffix(p) == p.skip(j + 1),
    decreases p.len(),
{
    if j == p.len() - 1 {
        assert(name_suffix(p) =~= p.skip(j + 1));
    } else {
        lemma_name_suffix_after_slash(p.drop_last(), j);
        assert(p.drop_last().skip(j + 1) =~= p.skip(j + 1).drop_last());
        assert(name_suffix(p) =~= p.skip(j + 1));
    }
}

/// A path whose characters are separators from position `e` on, and nowhere
/// at `e - 1`, keeps exactly its first `e` characters after stripping.
proof fn lemma_strip_trailing(p: Seq<char>, e: int)
    requires
        0 <= e <= p.len(),
        forall|l: int| e <= l < p.len() ==> (#[trigger] p[l]) == '/',
        e > 0 ==> p[e - 1] != '/',
    ensures
        strip_trailing_separators(p) == p.take(e),
    decreases p.len(),
{
    if e == p.len() {
        assert(p.take(e) =~= p);
    } else {
        lemma_strip_trailing(p.drop_last(), e);
        assert(p.drop_last().take(e) =~= p.take(e));
    }
}

/// A name without a dot past its first character has no extension.
proof fn lemma_extension_no_dot(n: Seq<char>)
    requires
        forall|l: int| 1 <= l < n.len() ==> (#[trigger] n[l]) != '.',
    ensures
        extension_of_name(n) is None,
    decreases n.len(),
{
    if n.len() > 1 {
        lemma_extension_no_dot(n.drop_last());
    }
}

/// Past its last dot (one that does not lead it), a name is its extension.
proof fn lemma_extension_after_dot(n: Seq<char>, j: int)
    requires
        1 <= j < n.len(),
        n[j] == '.',
        forall|l: int| j < l < n.len() ==> (#[trigger] n[l]) != '.',
    ensures
        extension_of_name(n) == Some(n.skip(j + 1)),
    decreases n.len(),
{
    if j == n.len() - 1 {
        assert(n.skip(j + 1) =~= Seq::<char>::empty());
    } else {
        lemma_extension_after_dot(n.drop_last(), j);
        assert(n.drop_last().skip(j + 1) =~= n.skip(j + 1).drop_last());
        assert(extension_of_name(n)->0 =~= n.skip(j + 1));
    }
}

/// The file name of a path: its last component -- everything after the last
/// `/`, with trailing separators ignored.
pub fn file_name_str(path: &str) -> (r: String)
    ensures
        r@ == file_name_of(path@),
{
    let n = path.unicode_len();
    let mut e: usize = n;
    while e > 0 && path.get_char(e - 1) == '/'
        invariant
            n == path@.len(),
            e <= n,
            forall|l: int| e <= l < n ==> (#[trigger] path@[l]) == '/',
        decreases e,
    {
        e = e - 1;
    }
    proof {
        lemma_strip_trailing(path@, e as int);
    }
    let ghost q = path@.take(e as int);
    let mut last_slash: usize = e;
    let mut i: usize = 0;
    while i < e
        invariant
            n == path@.len(),
            e <= n,
            i <= e,
            last_slash == e || (last_slash < i && path@[last_slash as int] == '/'),
            last_slash == e ==> forall|l: int| 0 <= l < i ==> (#[trigger] path@[l]) != '/',
            last_slash < e ==> forall|l: int|
                last_slash < l < i ==> (#[trigger] path@[l]) != '/',
        decreases e - i,
    {
        if path.get_char(i) == '/' {
            last_slash = i;
        }
        i = i + 1;
    }
    if last_slash == e {
        let sub = path.substring_char(0, e);
        proof {
            assert forall|l: int| 0 <= l < q.len() implies (#[trigger] q[l]) != '/' by {
                assert(q[l] == path@[l]);
            }
            lemma_name_suffix_no_slash(q);
            assert(path@.subrange(0, e as int) =~= q);
        }
        String::from_str(sub)
    } else {
        let sub = path.substring_char(last_slash + 1, e);
        proof {
            assert(q[last_slash as int] == path@[last_slash as int]);
            assert forall|l: int| last_slash < l < q.len() implies (#[trigger] q[l]) != '/' by {
                assert(q[l] == path@[l]);
            }
            lemma_name_suffix_after_slash(q, last_slash as int);
            assert(path@.subrange(last_slash + 1, e as int) =~= q.skip(last_slash + 1));
        }
        String::from_str(sub)
    }
}

/// The extension of a path, or `None` when its file name has none.
pub fn extension_str(path: &str) -> (r: Option<String>)
    ensures
        match extension_of(path@) {
            Some(e) => r is Some && r->0@ == e,
            None => r is None,
        },
{
    let name = file_name_str(path);
    let name_str = name.as_str();
    let n = name_str.unicode_len();
    let mut last_dot: usize = 0;
    let mut i: usize = 1;
    while i < n
        invariant
            name_str@ == name@,
            n == name@.len(),
            1 <= i || n == 0,
            i <= n || (n == 0 && i == 1),
            last_dot == 0 || (1 <= last_dot < i && name@[last_dot as int] == '.'),
            last_dot == 0 ==> forall|l: int| 1 <= l < i ==> (#[trigger] name@[l]) != '.',
            last_dot >= 1 ==> forall|l: int| last_dot < l < i ==> (#[trigger] name@[l]) != '.',
        decreases n - i,
    {
        if name_str.get_char(i) == '.' {
            last_dot = i;
        }
        i = i + 1;
    }
    if last_dot == 0 {
        proof {
            lemma_extension_no_dot(name@);
        }
        None
    } else {
        let sub = name_str.substring_char(last_dot + 1, n);
        proof {
            lemma_extension_after_dot(name@, last_dot as int);
            assert(name@.subrange(last_dot + 1, n as int) =~= name@.skip(last_dot + 1));
        }
        Some(String::from_str(sub))
    }
}

/// Metadata of one file or directory, as shown to the UI.
#[derive(Debug)]
pub struct FileInfo {
    pub name: String,
    pub path: String,
    pub size: u64,
    pub is_dir: bool,
    pub created_at: Option<String>,
    pub modified_at: Option<String>,
    pub extension: Option<String>,
}

impl FileInfo {
    /// The empty record, used when metadata cannot be read.
    pub fn default() -> (r: FileInfo)
        ensures
            r.name@.len() == 0,
            r.path@.len() == 0,
            r.size == 0,
            !r.is_dir,
            r.created_at is None,
            r.modified_at is None,
            r.extension is None,
    {
        FileInfo {
            name: String::new(),
            path: String::new(),
            size: 0,
            is_dir: false,
            created_at: None,
            modified_at: None,
            extension: None,
        }
    }

    /// The record for a path whose metadata -- size, kind, and the two
    /// timestamps in seconds since the Unix epoch -- the caller read from the
    /// file system. Name and extension are taken from the path; timestamps
    /// are rendered in decimal.
    pub fn from_parts(
        path: String,
        size: u64,
        is_dir: bool,
        created: Option<u64>,
        modified: Option<u64>,
    ) -> (r: FileInfo)
        ensures
            r.name@ == file_name_of(path@),
            r.path == path,
            r.size == size,
            r.is_dir == is_dir,
            match created {
                Some(t) => r.created_at is Some && r.created_at->0@ == decimal_string(t as nat),
                None => r.created_at is None,
            },
            match modified {
                Some(t) => r.modified_at is Some && r.modified_at->0@ == decimal_string(t as nat),
                None => r.modified_at is None,
            },
            match extension_of(path@) {
                Some(e) => r.extension is Some && r.extension->0@ == e,
                None => r.extension is None,
            },
    {
        let name = file_name_str(path.as_str());
        let extension = extension_str(path.as_str());
        let created_at = match created {
            Some(t) => Some(u64_to_string(t)),
            None => None,
        };
        let modified_at = match modified {
            Some(t) => Some(u64_to_string(t)),
            None => None,
        };
        FileInfo { name, path, size, is_dir, created_at, modified_at, extension }
    }
}

/// One node of the file tree shown to the UI.
#[derive(Debug)]
pub struct FileTreeNode {
    pub key: String,
    pub title: String,
    pub path: String,
    pub is_leaf: bool,
    pub size: u64,
    pub children: Option<Vec<FileTreeNode>>,
    pub expandable: bool,
}

impl FileTreeNode {
    /// A leaf node: a file of the given size, keyed by its path.
    pub fn new_leaf(name: String, path: String, size: u64) -> (r: FileTreeNode)
        ensures
            r.key == path,
            r.title == name,
            r.path == path,
            r.is_leaf,
            r.size == size,
            r.children is None,
            !r.expandable,
    {
        let key = path.clone();
        FileTreeNode {
            key,
            title: name,
            path,
            is_leaf: true,
            size,
            children: None,
            expandable: false,
        }
    }

    /// A directory node: expandable, with an empty child list to be filled
    /// lazily.
    pub fn new_dir(name: String, path: String) -> (r: FileTreeNode)
        ensures
            r.key == path,
            r.title == name,
            r.path == path,
            !r.is_leaf,
            r.size == 0,
            r.children is Some,
            r.children->0@.len() == 0,
            r.expandable,
    {
        let key = path.clone();
        FileTreeNode {
            key,
            title: name,
            path,
            is_leaf: false,
            size: 0,
            children: Some(Vec::new()),
            expandable: true,
        }
    }

    /// The node for a directory entry whose kind and size the caller read
    /// from the file system: a lazily-expandable directory node or a leaf,
    /// titled with the path's file name.
    pub fn from_parts(path: String, is_dir: bool, size: u64) -> (r: FileTreeNode)
        ensures
            r.key == path,
            r.title@ == file_name_of(path@),
            r.path == path,
            r.is_leaf == !is_dir,
            r.size == size,
            is_dir ==> r.children is Some && r.children->0@.len() == 0,
            !is_dir ==> r.children is None,
            r.expandable == is_dir,
    {
        let title = file_name_str(path.as_str());
        let key = path.clone();
        let children = if is_dir {
            Some(Vec::new())
        } else {
            None
        };
        FileTreeNode { key, title, path, is_leaf: !is_dir, size, children, expandable: is_dir }
    }
}

/// The file store's knowledge of where everything lives: the workspace root
/// it was constructed with. All reads and writes the application performs
/// are scoped beneath paths validated against this root.
pub struct FileService {
    workspace: String,
}

impl View for FileService {
    type V = Seq<char>;

    closed spec fn view(&self) -> Seq<char> {
        self.workspace@
    }
}

impl FileService {
    /// A store rooted at the given workspace directory.
    pub fn new(workspace: String) -> (s: FileService)
        ensures
            s@ == workspace@,
    {
        FileService { workspace }
    }

    /// The workspace root.
    pub fn get_workspace_path(&self) -> (r: String)
        ensures
            r@ == self@,
    {
        self.workspace.clone()
    }

    /// The five subdirectories a fresh workspace is laid out with.
    pub fn workspace_subdir_paths(&self) -> (r: Vec<String>)
        ensures
            r@.len() == 5,
            r@[0]@ == self@ + "/projects"@,
            r@[1]@ == self@ + "/uploads"@,
            r@[2]@ == self@ + "/exports"@,
            r@[3]@ == self@ + "/chat-history"@,
            r@[4]@ == self@ + "/skill-packs"@,
    {
        let mut dirs: Vec<String> = Vec::new();
        let mut p = self.workspace.clone();
        p.append("/projects");
        dirs.push(p);
        let mut p = self.workspace.clone();
        p.append("/uploads");
        dirs.push(p);
        let mut p = self.workspace.clone();
        p.append("/exports");
        dirs.push(p);
        let mut p = self.workspace.clone();
        p.append("/chat-history");
        dirs.push(p);
        let mut p = self.workspace.clone();
        p.append("/skill-packs");
        dirs.push(p);
        dirs
    }
}

} // verus!
