//! The values exchanged with the filesystem layer: what kind of object a path
//! names, how an operation on a path failed, and what a directory lists.
//!
//! The filesystem layer itself (stat, open, create, list) lives outside this
//! library. It answers in these types, and every decision this library takes
//! is a function of such answers. Where the layer fails, it says so in one
//! line of text that holds the path and the words of the operating system;
//! what class a failure belongs to is for this library to say.

use vstd::prelude::*;

verus! {

/// The kind of object a path names, found without following a symbolic link in
/// the last component: a link is reported as `Symlink`, never as what it points
/// to. The kinds that are recreated with a mode carry the entry's mode bits.
#[derive(Clone, Copy, Debug, PartialEq, Eq, Structural)]
pub enum FileType {
    Regular,
    Directory(u32),
    Symlink,
    Fifo(u32),
    Socket,
    BlockDevice(u32),
    CharacterDevice(u32),
}

impl FileType {
    /// The mode bits that the kind carries, if it carries any.
    pub open spec fn mode(self) -> Option<u32> {
        match self {
            FileType::Directory(mode) => Some(mode),
            FileType::Fifo(mode) => Some(mode),
            FileType::BlockDevice(mode) => Some(mode),
            FileType::CharacterDevice(mode) => Some(mode),
            _ => None,
        }
    }

    /// Whether the kind is one of the two device kinds.
    pub open spec fn is_device(self) -> bool {
        self is BlockDevice || self is CharacterDevice
    }
}

/// The classes of failure.
#[derive(Clone, Copy, Debug, PartialEq, Eq, Structural)]
pub enum ErrorKind {
    /// The operating system refused an operation.
    Io,
    /// The entry is of a kind that cannot be copied.
    Unsupported,
    /// The arguments have the wrong shape. The only class that ends the whole
    /// invocation before any copy starts.
    Usage,
    /// A source path has no final component to name its copy by.
    InvalidPath,
}

/// A failure: its class and the line that is printed for it.
#[derive(Debug, PartialEq, Eq)]
pub struct Error {
    pub kind: ErrorKind,
    pub message: String,
}

/// The mathematical value of an [`Error`].
pub struct ErrorView {
    pub kind: ErrorKind,
    pub message: Seq<char>,
}

impl View for Error {
    type V = ErrorView;

    open spec fn view(&self) -> ErrorView {
        ErrorView { kind: self.kind, message: self.message@ }
    }
}

impl DeepView for Error {
    type V = ErrorView;

    open spec fn deep_view(&self) -> ErrorView {
        self@
    }
}

impl ErrorView {
    /// The failure of an operation of the filesystem layer that the layer
    /// describes by `message`.
    pub open spec fn io(message: Seq<char>) -> ErrorView {
        ErrorView { kind: ErrorKind::Io, message }
    }

    /// Whether the failure ends the whole invocation: a usage error does, and
    /// no other.
    pub open spec fn is_fatal(self) -> bool {
        self.kind == ErrorKind::Usage
    }
}

impl Error {
    /// Tells whether the failure ends the whole invocation.
    pub fn is_fatal(&self) -> (fatal: bool)
        ensures
            fatal == self@.is_fatal(),
    {
        match self.kind {
            ErrorKind::Usage => true,
            _ => false,
        }
    }
}

/// One item of a directory listing: an entry with its name and its path, or
/// the layer's words for its failure to read one.
#[derive(Debug, PartialEq, Eq)]
pub enum Entry {
    Found { name: String, path: String },
    Unreadable { message: String },
}

/// The mathematical value of an [`Entry`].
pub enum EntryView {
    Found { name: Seq<char>, path: Seq<char> },
    Unreadable { message: Seq<char> },
}

impl View for Entry {
    type V = EntryView;

    open spec fn view(&self) -> EntryView {
        match *self {
            Entry::Found { name, path } => EntryView::Found { name: name@, path: path@ },
            Entry::Unreadable { message } => EntryView::Unreadable { message: message@ },
        }
    }
}

impl DeepView for Entry {
    type V = EntryView;

    open spec fn deep_view(&self) -> EntryView {
        self@
    }
}

} // verus!
