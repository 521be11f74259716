//! The vocabulary of the copy engine: what it asks the filesystem layer to do
//! next, and what the layer answers.
//!
//! A copy runs as an exchange. The engine holds a [`Step`], which names one
//! piece of outside work. The caller does that work and hands back the
//! [`Event`] that tells how it went, and the engine answers with the next
//! step, until the step is `Done`.

use vstd::prelude::*;
use crate::filesystem::{Entry, EntryView, Error, ErrorView, FileType};

verus! {

/// One source path and the destination path its copy goes to.
#[derive(Debug, PartialEq, Eq)]
pub struct CopyTask {
    pub source: String,
    pub dest: String,
}

/// The mathematical value of a [`CopyTask`].
pub struct CopyTaskView {
    pub source: Seq<char>,
    pub dest: Seq<char>,
}

impl View for CopyTask {
    type V = CopyTaskView;

    open spec fn view(&self) -> CopyTaskView {
        CopyTaskView { source: self.source@, dest: self.dest@ }
    }
}

impl DeepView for CopyTask {
    type V = CopyTaskView;

    open spec fn deep_view(&self) -> CopyTaskView {
        self@
    }
}

/// One member of a fan-out: an entry to copy, or an entry that has failed
/// before its copy could start.
#[derive(Debug, PartialEq, Eq)]
pub enum Child {
    Copy { task: CopyTask },
    Failed { error: Error },
}

/// The mathematical value of a [`Child`].
pub enum ChildView {
    Copy { task: CopyTaskView },
    Failed { error: ErrorView },
}

impl View for Child {
    type V = ChildView;

    open spec fn view(&self) -> ChildView {
        match *self {
            Child::Copy { task } => ChildView::Copy { task: task@ },
            Child::Failed { error } => ChildView::Failed { error: error@ },
        }
    }
}

impl DeepView for Child {
    type V = ChildView;

    open spec fn deep_view(&self) -> ChildView {
        self@
    }
}

/// The piece of outside work that a copy waits for, or its end.
#[derive(Debug, PartialEq, Eq)]
pub enum Step {
    /// Find out what kind of entry the source is. Answered by `Classified`.
    Classify { task: CopyTask },
    /// Copy the bytes of a regular file to a new file. Answered by `Completed`.
    CopyContents { task: CopyTask },
    /// Create the destination directory with the given mode. Answered by
    /// `Completed`.
    CreateDirectory { task: CopyTask, mode: u32 },
    /// List the entries of the source directory. Answered by `Listed`.
    ListDirectory { task: CopyTask },
    /// Run every child to its end, in any order and concurrently, and collect
    /// one failure flag for each, in the order of the children. Answered by
    /// `Children`.
    CopyChildren { children: Vec<Child> },
    /// Read the target of the source link, without following it. Answered by
    /// `Linked`.
    ReadLink { task: CopyTask },
    /// Create a symbolic link to `target` at `dest`. Answered by `Completed`.
    CreateSymlink { target: String, dest: String },
    /// Create a FIFO with the given mode at `dest`. Answered by `Completed`.
    CreateFifo { dest: String, mode: u32 },
    /// Open the source device for reading, create the destination as a file
    /// with the given mode, and copy the bytes through. Answered by
    /// `Completed`.
    CopyStream { task: CopyTask, mode: u32 },
    /// Find out what kind of entry the destination of several sources is.
    /// Answered by `Classified`.
    CheckDestination { sources: Vec<String>, dest: String },
    /// The end. `report`, if there is one, is to be printed.
    Done { had_error: bool, report: Option<Error> },
}

/// The mathematical value of a [`Step`].
pub enum StepView {
    Classify { task: CopyTaskView },
    CopyContents { task: CopyTaskView },
    CreateDirectory { task: CopyTaskView, mode: u32 },
    ListDirectory { task: CopyTaskView },
    CopyChildren { children: Seq<ChildView> },
    ReadLink { task: CopyTaskView },
    CreateSymlink { target: Seq<char>, dest: Seq<char> },
    CreateFifo { dest: Seq<char>, mode: u32 },
    CopyStream { task: CopyTaskView, mode: u32 },
    CheckDestination { sources: Seq<Seq<char>>, dest: Seq<char> },
    Done { had_error: bool, report: Option<ErrorView> },
}

impl StepView {
    /// Whether the step tells no lie about its end: an end that has something
    /// to report has failed.
    pub open spec fn consistent(self) -> bool {
        self matches StepView::Done { had_error, report } ==> (report is Some ==> had_error)
    }
}

impl View for Step {
    type V = StepView;

    open spec fn view(&self) -> StepView {
        match *self {
            Step::Classify { task } => StepView::Classify { task: task@ },
            Step::CopyContents { task } => StepView::CopyContents { task: task@ },
            Step::CreateDirectory { task, mode } => StepView::CreateDirectory { task: task@, mode },
            Step::ListDirectory { task } => StepView::ListDirectory { task: task@ },
            Step::CopyChildren { children } => StepView::CopyChildren {
                children: children.deep_view(),
            },
            Step::ReadLink { task } => StepView::ReadLink { task: task@ },
            Step::CreateSymlink { target, dest } => StepView::CreateSymlink {
                target: target@,
                dest: dest@,
            },
            Step::CreateFifo { dest, mode } => StepView::CreateFifo { dest: dest@, mode },
            Step::CopyStream { task, mode } => StepView::CopyStream { task: task@, mode },
            Step::CheckDestination { sources, dest } => StepView::CheckDestination {
                sources: sources.deep_view(),
                dest: dest@,
            },
            Step::Done { had_error, report } => StepView::Done {
                had_error,
                report: report.deep_view(),
            },
        }
    }
}

/// The answer to a step. Where the filesystem layer has failed, the answer
/// holds the layer's words for the failure.
#[derive(Debug, PartialEq, Eq)]
pub enum Event {
    /// The kind of the entry, or why it could not be found out.
    Classified { file_type: Result<FileType, String> },
    /// An operation that yields nothing has succeeded or failed.
    Completed { result: Result<(), String> },
    /// The entries of a directory, or why it could not be listed.
    Listed { entries: Result<Vec<Entry>, String> },
    /// The target of a link, or why it could not be read.
    Linked { target: Result<String, String> },
    /// One flag for each child of a fan-out, set if the child had an error.
    Children { flags: Vec<bool> },
}

/// The mathematical value of an [`Event`].
pub enum EventView {
    Classified { file_type: Result<FileType, Seq<char>> },
    Completed { result: Result<(), Seq<char>> },
    Listed { entries: Result<Seq<EntryView>, Seq<char>> },
    Linked { target: Result<Seq<char>, Seq<char>> },
    Children { flags: Seq<bool> },
}

impl View for Event {
    type V = EventView;

    open spec fn view(&self) -> EventView {
        match *self {
            Event::Classified { file_type } => EventView::Classified {
                file_type: match file_type {
                    Ok(kind) => Ok(kind),
                    Err(message) => Err(message@),
                },
            },
            Event::Completed { result } => EventView::Completed {
                result: match result {
                    Ok(unit) => Ok(unit),
                    Err(message) => Err(message@),
                },
            },
            Event::Listed { entries } => EventView::Listed {
                entries: match entries {
                    Ok(list) => Ok(list.deep_view()),
                    Err(message) => Err(message@),
                },
            },
            Event::Linked { target } => EventView::Linked {
                target: match target {
                    Ok(text) => Ok(text@),
                    Err(message) => Err(message@),
                },
            },
            Event::Children { flags } => EventView::Children { flags: flags@ },
        }
    }
}

} // verus!
