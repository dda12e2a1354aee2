//! Entries of a directory listing and their kinds.

use vstd::prelude::*;

verus! {

/// The kind of filesystem object that an entry stands for.
#[derive(Debug, Clone, Copy, PartialEq, Eq, Structural)]
pub enum FileType {
    File,
    /// Reserved: the scanner never emits it.
    FileExecutable,
    /// The synthetic entry that leads to the parent directory.
    ParentDirectory,
    Directory,
    /// Only symbolic links are reported as links.
    Link,
    /// Block devices, pipes, sockets and anything unknown.
    Special,
}

/// The kind that metadata with the given type flags is classified as.
pub open spec fn classify(is_file: bool, is_dir: bool, is_symlink: bool) -> FileType {
    if is_file {
        FileType::File
    } else if is_dir {
        FileType::Directory
    } else if is_symlink {
        FileType::Link
    } else {
        FileType::Special
    }
}

/// The short label under which a kind is shown.
pub open spec fn type_label(t: FileType) -> Seq<char> {
    match t {
        FileType::File => "file"@,
        FileType::FileExecutable => "file*"@,
        FileType::ParentDirectory => "UP-DIR"@,
        FileType::Directory => "DIR"@,
        FileType::Link => "link"@,
        FileType::Special => "special"@,
    }
}

impl FileType {
    /// Classifies an object from the type flags of its (not followed) metadata.
    pub fn from_fs_file_type(is_file: bool, is_dir: bool, is_symlink: bool) -> (r: FileType)
        ensures
            r == classify(is_file, is_dir, is_symlink),
    {
        if is_file {
            FileType::File
        } else if is_dir {
            FileType::Directory
        } else if is_symlink {
            FileType::Link
        } else {
            FileType::Special
        }
    }

    /// Whether entering an entry of this kind changes directory.
    pub open spec fn spec_is_dir(self) -> bool {
        self is Directory || self is ParentDirectory
    }

    pub fn is_dir(&self) -> (r: bool)
        ensures
            r == self.spec_is_dir(),
    {
        match self {
            FileType::Directory | FileType::ParentDirectory => true,
            _ => false,
        }
    }

    /// The label shown for this kind.
    pub fn to_string(&self) -> (r: String)
        ensures
            r@ == type_label(*self),
    {
        let s: &str = match self {
            FileType::File => "file",
            FileType::FileExecutable => "file*",
            FileType::ParentDirectory => "UP-DIR",
            FileType::Directory => "DIR",
            FileType::Link => "link",
            FileType::Special => "special",
        };
        String::from_str(s)
    }
}

/// Whether a raw name marks a hidden object: its first byte is a dot.
pub open spec fn hidden_name(name: Seq<u8>) -> bool {
    name.len() > 0 && name[0] == 0x2eu8
}

/// One filesystem object of a listing. Entries are snapshots: a rescan
/// replaces them, it never patches them.
#[derive(Debug, Clone)]
pub struct FileEntry {
    /// Raw name without the directory part.
    pub file_name: Vec<u8>,
    /// Full path of the object.
    pub path: String,
    /// Size in bytes.
    pub byte_size: u64,
    pub file_type: FileType,
    pub is_hidden: bool,
}

impl FileEntry {
    /// Builds the entry of a directory child from what its metadata reports.
    pub fn new(file_name: Vec<u8>, path: String, byte_size: u64, file_type: FileType) -> (r:
        FileEntry)
        ensures
            r.file_name@ == file_name@,
            r.path == path,
            r.byte_size == byte_size,
            r.file_type == file_type,
            r.is_hidden == hidden_name(file_name@),
    {
        let is_hidden = file_name.len() > 0 && file_name[0] == 0x2eu8;
        FileEntry { file_name, path, byte_size, file_type, is_hidden }
    }

    /// The size in the largest binary unit that it reaches.
    pub fn size(&self) -> (r: FileSize)
        ensures
            r == human_size(self.byte_size),
    {
        FileSize::get_human_size(self.byte_size)
    }
}

/// A size together with the unit in which it is shown. Each variant holds
/// the size in bytes; the display divides it by the unit.
#[derive(Debug, Clone, Copy, PartialEq, Eq, Structural)]
pub enum FileSize {
    Bytes(u64),
    KBytes(u64),
    MBytes(u64),
    GBytes(u64),
    TBytes(u64),
}

pub const KIB: u64 = 1024;
pub const MIB: u64 = 1048576;
pub const GIB: u64 = 1073741824;
pub const TIB: u64 = 1099511627776;

/// The unit that a byte count is shown in: the largest power of 1024 that it reaches.
pub open spec fn human_size(n: u64) -> FileSize {
    if n >= TIB {
        FileSize::TBytes(n)
    } else if n >= GIB {
        FileSize::GBytes(n)
    } else if n >= MIB {
        FileSize::MBytes(n)
    } else if n >= KIB {
        FileSize::KBytes(n)
    } else {
        FileSize::Bytes(n)
    }
}

impl FileSize {
    pub fn get_human_size(byte_size: u64) -> (r: FileSize)
        ensures
            r == human_size(byte_size),
    {
        if byte_size >= TIB {
            FileSize::TBytes(byte_size)
        } else if byte_size >= GIB {
            FileSize::GBytes(byte_size)
        } else if byte_size >= MIB {
            FileSize::MBytes(byte_size)
        } else if byte_size >= KIB {
            FileSize::KBytes(byte_size)
        } else {
            FileSize::Bytes(byte_size)
        }
    }

    /// The byte count that the size was made from.
    pub fn bytes(&self) -> (r: u64)
        ensures
            r == match *self {
                FileSize::Bytes(n) => n,
                FileSize::KBytes(n) => n,
                FileSize::MBytes(n) => n,
                FileSize::GBytes(n) => n,
                FileSize::TBytes(n) => n,
            },
    {
        match self {
            FileSize::Bytes(n) | FileSize::KBytes(n) | FileSize::MBytes(n) | FileSize::GBytes(n)
            | FileSize::TBytes(n) => *n,
        }
    }
}

} // verus!
