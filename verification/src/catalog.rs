//! The filesystem catalog: an immutable directory tree and file-content
//! table, both keyed by absolute path strings.
//!
//! A directory key always ends with `/` (the root is `"/"`); its value is
//! the ordered list of child names, where a trailing `/` marks a child that
//! is itself a directory. A file key is the owning directory's key followed
//! by the bare file name.

use vstd::prelude::*;

verus! {

use vstd::hash_map::StringHashMap;

use crate::outcome::ErrorKind;

/// An immutable catalog of directories and file contents.
pub struct Catalog {
    pub dirs: StringHashMap<Vec<String>>,
    pub files: StringHashMap<String>,
}

impl Catalog {
    /// The directory table: absolute directory path to ordered child names.
    pub open spec fn dirs_view(self) -> Map<Seq<char>, Seq<Seq<char>>> {
        self.dirs@.map_values(|v: Vec<String>| v.deep_view())
    }

    /// The file table: absolute file path to content.
    pub open spec fn files_view(self) -> Map<Seq<char>, Seq<char>> {
        self.files@.map_values(|v: String| v@)
    }

    /// Whether `path` is a directory key.
    pub open spec fn is_dir(self, path: Seq<char>) -> bool {
        self.dirs_view().contains_key(path)
    }

    /// The ordered child names of the directory `path`.
    pub open spec fn children_of(self, path: Seq<char>) -> Seq<Seq<char>> {
        self.dirs_view()[path]
    }

    /// Whether `path` is a file key.
    pub open spec fn is_file(self, path: Seq<char>) -> bool {
        self.files_view().contains_key(path)
    }

    /// The stored content of the file `path`.
    pub open spec fn content_of(self, path: Seq<char>) -> Seq<char> {
        self.files_view()[path]
    }

    /// A child entry is well formed under its directory `dpath`: it is a
    /// non-empty name, and if it is marked as a directory (trailing `/`),
    /// the catalog has a key for it.
    pub open spec fn child_ok(self, dpath: Seq<char>, name: Seq<char>) -> bool {
        &&& name.len() > 0
        &&& name.last() == '/' ==> self.is_dir(dpath + name)
    }

    /// Catalog invariant: the root directory exists, and every directory
    /// child referenced anywhere has its own directory key.
    pub open spec fn wf(self) -> bool {
        &&& self.is_dir("/"@)
        &&& forall|p: Seq<char>, j: int|
            self.is_dir(p) && 0 <= j < self.children_of(p).len() ==> self.child_ok(
                p,
                #[trigger] self.children_of(p)[j],
            )
    }

    /// An empty catalog holding only the root directory with no children.
    pub fn new_rooted() -> (r: Catalog)
        ensures
            r.dirs_view() =~= Map::<Seq<char>, Seq<Seq<char>>>::empty().insert(
                "/"@,
                Seq::empty(),
            ),
            r.files_view() =~= Map::<Seq<char>, Seq<char>>::empty(),
            r.wf(),
    {
        let mut dirs: StringHashMap<Vec<String>> = StringHashMap::new();
        let children: Vec<String> = Vec::new();
        assert(children.deep_view() =~= Seq::<Seq<char>>::empty());
        dirs.insert("/".to_owned(), children);
        let files: StringHashMap<String> = StringHashMap::new();
        let r = Catalog { dirs, files };
        assert(r.dirs_view() =~~= Map::<Seq<char>, Seq<Seq<char>>>::empty().insert(
            "/"@,
            Seq::empty(),
        ));
        assert(r.files_view() =~= Map::<Seq<char>, Seq<char>>::empty());
        r
    }

    /// Adds (or replaces) a directory entry.
    pub fn add_dir(&mut self, path: String, children: Vec<String>)
        ensures
            final(self).dirs_view() =~= old(self).dirs_view().insert(
                path@,
                children.deep_view(),
            ),
            final(self).files_view() == old(self).files_view(),
    {
        self.dirs.insert(path, children);
        assert(self.dirs_view() =~= old(self).dirs_view().insert(
            path@,
            children.deep_view(),
        ));
    }

    /// Adds (or replaces) a file entry.
    pub fn add_file(&mut self, path: String, content: String)
        ensures
            final(self).files_view() =~= old(self).files_view().insert(path@, content@),
            final(self).dirs_view() == old(self).dirs_view(),
    {
        self.files.insert(path, content);
        assert(self.files_view() =~= old(self).files_view().insert(path@, content@));
    }

    /// Lists the child names of the directory `path`, in stored order.
    /// Fails with `PathNotFound` if `path` is not a directory key.
    pub fn list_children(&self, path: &str) -> (r: Result<&Vec<String>, ErrorKind>)
        ensures
            match r {
                Ok(cs) => self.is_dir(path@) && cs.deep_view() == self.children_of(path@),
                Err(e) => !self.is_dir(path@) && e == ErrorKind::PathNotFound,
            },
    {
        match self.dirs.get(path) {
            Some(cs) => Ok(cs),
            None => Err(ErrorKind::PathNotFound),
        }
    }

    /// Reads the content of the file `path`.
    /// Fails with `FileNotFound` if no such file key exists.
    pub fn read_file(&self, path: &str) -> (r: Result<&String, ErrorKind>)
        ensures
            match r {
                Ok(c) => self.is_file(path@) && c@ == self.content_of(path@),
                Err(e) => !self.is_file(path@) && e == ErrorKind::FileNotFound,
            },
    {
        match self.files.get(path) {
            Some(c) => Ok(c),
            None => Err(ErrorKind::FileNotFound),
        }
    }
}

} // verus!
