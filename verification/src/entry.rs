//! The model of one directory child: its kind, absolute path and file name.

use vstd::prelude::*;
use crate::paths::{last_component_of, parent_of, path_last, path_parent};

verus! {

/// Kind bit set when the entry is a regular file.
pub const TYPE_FILE: u32 = 1;

/// Kind bit set when the entry is a directory.
pub const TYPE_DIR: u32 = 2;

/// Ghost image of a [`FileStat`]: the kind bits and the two strings as
/// character sequences.
pub struct FileStatView {
    pub typ: u32,
    pub path: Seq<char>,
    pub file_name: Seq<char>,
}

impl FileStatView {
    /// The entry is a directory: its directory bit is set.
    pub open spec fn is_dir(self) -> bool {
        self.typ & TYPE_DIR != 0
    }

    /// The entry is a regular file: its file bit is set.
    pub open spec fn is_file(self) -> bool {
        self.typ & TYPE_FILE != 0
    }
}

/// Describes one directory child. Immutable once built: the snapshot that
/// owns it replaces it wholesale, never patches it.
pub struct FileStat {
    pub typ: u32,
    pub path: String,
    pub file_name: String,
}

impl View for FileStat {
    type V = FileStatView;

    open spec fn view(&self) -> FileStatView {
        FileStatView { typ: self.typ, path: self.path@, file_name: self.file_name@ }
    }
}

impl Clone for FileStat {
    fn clone(&self) -> (r: Self)
        ensures
            r == *self,
    {
        FileStat { typ: self.typ, path: self.path.clone(), file_name: self.file_name.clone() }
    }
}

impl FileStat {
    /// Builds the description of one child from plain values: the two kind
    /// flags are packed into the kind bits.
    pub fn new(path: String, file_name: String, is_dir: bool, is_file: bool) -> (r: FileStat)
        ensures
            r@.path == path@,
            r@.file_name == file_name@,
            r@.is_dir() == is_dir,
            r@.is_file() == is_file,
    {
        let typ: u32 = if is_dir && is_file {
            3
        } else if is_dir {
            2
        } else if is_file {
            1
        } else {
            0
        };
        proof {
            assert(3u32 & 2u32 != 0 && 3u32 & 1u32 != 0) by (bit_vector);
            assert(2u32 & 2u32 != 0 && 2u32 & 1u32 == 0) by (bit_vector);
            assert(1u32 & 2u32 == 0 && 1u32 & 1u32 != 0) by (bit_vector);
            assert(0u32 & 2u32 == 0 && 0u32 & 1u32 == 0) by (bit_vector);
        }
        FileStat { typ, path, file_name }
    }

    /// Returns whether the entry is a directory.
    pub fn is_dir(&self) -> (r: bool)
        ensures
            r == self@.is_dir(),
    {
        self.typ & TYPE_DIR != 0
    }

    /// Returns whether the entry is a regular file.
    pub fn is_file(&self) -> (r: bool)
        ensures
            r == self@.is_file(),
    {
        self.typ & TYPE_FILE != 0
    }

    /// Returns the path of the entry.
    pub fn path(&self) -> (r: &str)
        ensures
            r@ == self@.path,
    {
        self.path.as_str()
    }

    /// Returns the lowest portion of the entry's path.
    pub fn file_name(&self) -> (r: &str)
        ensures
            r@ == self@.file_name,
    {
        self.file_name.as_str()
    }

    /// Returns a new entry describing the parent of this entry's path. A
    /// path's parent is a directory by construction, so its directory bit
    /// is set.
    pub fn parent(&self) -> (r: FileStat)
        ensures
            r@.path == parent_of(self@.path),
            r@.file_name == last_component_of(parent_of(self@.path)),
            r@.is_dir(),
            !r@.is_file(),
    {
        let p = path_parent(self.path.as_str());
        let name = path_last(p.as_str());
        FileStat::new(p, name, true, false)
    }
}

} // verus!
