//! The dispatcher: which step follows which.
//!
//! A copy of one entry starts by classifying its source. What the source is
//! decides how it is copied; the table is [`strategy`]. Every step after that
//! either leads on to the next step or ends the copy. A failure ends it at
//! once, with the failure as its report: it is never passed on to the copy of
//! another entry.

use vstd::prelude::*;
use crate::aggregate::{collect, collected};
use crate::filesystem::{Error, ErrorKind, ErrorView, FileType};
use crate::orchestrate::{copy_many, fan_out};
use crate::step::{Child, ChildView, CopyTask, CopyTaskView, Event, EventView, Step, StepView};
use crate::walk::{copy_directory, outcome_view, walk};

verus! {

/// The line printed for a source that is a socket.
pub open spec fn socket_message(source: Seq<char>) -> Seq<char> {
    source + ": sockets cannot be copied"@
}

/// The end of a copy in which nothing failed.
pub open spec fn succeeded() -> StepView {
    StepView::Done { had_error: false, report: None }
}

/// The end of a copy that failed with `error`.
pub open spec fn failed(error: ErrorView) -> StepView {
    StepView::Done { had_error: true, report: Some(error) }
}

/// How an entry of a given kind is copied: the step that follows its
/// classification.
///
/// | kind | step |
/// |---|---|
/// | regular file | copy its bytes to a new file |
/// | directory | create the destination directory with the same mode |
/// | symbolic link | read its target |
/// | FIFO | create a FIFO with the same mode |
/// | socket | none: the copy fails |
/// | block or character device | copy the bytes read from it to a new file with the same mode |
pub open spec fn strategy(task: CopyTaskView, kind: FileType) -> Result<StepView, ErrorView> {
    match kind {
        FileType::Regular => Ok(StepView::CopyContents { task }),
        FileType::Directory(mode) => Ok(StepView::CreateDirectory { task, mode }),
        FileType::Symlink => Ok(StepView::ReadLink { task }),
        FileType::Fifo(mode) => Ok(StepView::CreateFifo { dest: task.dest, mode }),
        FileType::Socket => Err(
            ErrorView { kind: ErrorKind::Unsupported, message: socket_message(task.source) },
        ),
        FileType::BlockDevice(mode) => Ok(StepView::CopyStream { task, mode }),
        FileType::CharacterDevice(mode) => Ok(StepView::CopyStream { task, mode }),
    }
}

/// What follows an operation that yields nothing: the end of the copy, or the
/// operation's failure.
pub open spec fn concluded(result: Result<(), Seq<char>>) -> Result<StepView, ErrorView> {
    match result {
        Ok(_) => Ok(succeeded()),
        Err(message) => Err(ErrorView::io(message)),
    }
}

/// Whether `event` is of the sort that answers `step`.
pub open spec fn answers(step: StepView, event: EventView) -> bool {
    match step {
        StepView::Classify { .. } => event is Classified,
        StepView::CopyContents { .. } => event is Completed,
        StepView::CreateDirectory { .. } => event is Completed,
        StepView::ListDirectory { .. } => event is Listed,
        StepView::CopyChildren { children } => event is Children && event->flags.len()
            == children.len(),
        StepView::ReadLink { .. } => event is Linked,
        StepView::CreateSymlink { .. } => event is Completed,
        StepView::CreateFifo { .. } => event is Completed,
        StepView::CopyStream { .. } => event is Completed,
        StepView::CheckDestination { .. } => event is Classified,
        StepView::Done { .. } => false,
    }
}

/// The step that follows `step` on `event`, or the failure that ends the
/// copy. An event that does not answer the step leaves the step as it is.
pub open spec fn dispatch(step: StepView, event: EventView) -> Result<StepView, ErrorView> {
    match step {
        StepView::Classify { task } => match event {
            EventView::Classified { file_type } => match file_type {
                Ok(kind) => strategy(task, kind),
                Err(message) => Err(ErrorView::io(message)),
            },
            _ => Ok(step),
        },
        StepView::ReadLink { task } => match event {
            EventView::Linked { target } => match target {
                Ok(text) => Ok(StepView::CreateSymlink { target: text, dest: task.dest }),
                Err(message) => Err(ErrorView::io(message)),
            },
            _ => Ok(step),
        },
        StepView::CreateDirectory { .. } => walk(step, event),
        StepView::ListDirectory { .. } => walk(step, event),
        StepView::CopyChildren { children } => Ok(collected(children, event)),
        StepView::CheckDestination { sources, dest } => fan_out(sources, dest, event),
        StepView::Done { .. } => Ok(step),
        _ => match event {
            EventView::Completed { result } => concluded(result),
            _ => Ok(step),
        },
    }
}

/// The step that follows `step` on `event`. A failure becomes the end of the
/// copy, with the failure as its report.
pub open spec fn next(step: StepView, event: EventView) -> StepView {
    match dispatch(step, event) {
        Ok(following) => following,
        Err(error) => failed(error),
    }
}

/// The first step of a child of a fan-out: the classification of its source,
/// or the end if it failed before it could start.
pub open spec fn first(child: ChildView) -> StepView {
    match child {
        ChildView::Copy { task } => StepView::Classify { task },
        ChildView::Failed { error } => failed(error),
    }
}

/// Begins the run of one child of a fan-out.
pub fn start(child: &Child) -> (step: Step)
    ensures
        step@ == first(child@),
{
    match child {
        Child::Copy { task } => Step::Classify {
            task: CopyTask { source: task.source.clone(), dest: task.dest.clone() },
        },
        Child::Failed { error } => Step::Done {
            had_error: true,
            report: Some(Error { kind: error.kind, message: error.message.clone() }),
        },
    }
}

/// Ends a copy after an operation that yields nothing.
fn conclude(result: Result<(), String>) -> (next: Result<Step, Error>)
    ensures
        outcome_view(next) == concluded(
            match result {
                Ok(unit) => Ok(unit),
                Err(message) => Err(message@),
            },
        ),
{
    match result {
        Ok(_) => Ok(Step::Done { had_error: false, report: None }),
        Err(message) => Err(Error { kind: ErrorKind::Io, message }),
    }
}

/// Chooses how an entry of a given kind is copied.
pub fn choose_strategy(task: CopyTask, kind: FileType) -> (next: Result<Step, Error>)
    ensures
        outcome_view(next) == strategy(task@, kind),
{
    match kind {
        FileType::Regular => Ok(Step::CopyContents { task }),
        FileType::Directory(mode) => Ok(Step::CreateDirectory { task, mode }),
        FileType::Symlink => Ok(Step::ReadLink { task }),
        FileType::Fifo(mode) => Ok(Step::CreateFifo { dest: task.dest, mode }),
        FileType::Socket => {
            let mut message = task.source;
            message.append(": sockets cannot be copied");
            Err(Error { kind: ErrorKind::Unsupported, message })
        },
        FileType::BlockDevice(mode) => Ok(Step::CopyStream { task, mode }),
        FileType::CharacterDevice(mode) => Ok(Step::CopyStream { task, mode }),
    }
}

/// Advances a copy by one step, or fails: takes the step that the copy is at
/// and the answer to it, and gives the step that follows, or the failure that
/// the answer told of or that the step itself amounts to.
pub fn copy_file_impl(step: Step, event: Event) -> (next: Result<Step, Error>)
    ensures
        outcome_view(next) == dispatch(step@, event@),
{
    match step {
        Step::Classify { task } => match event {
            Event::Classified { file_type } => match file_type {
                Ok(kind) => choose_strategy(task, kind),
                Err(message) => Err(Error { kind: ErrorKind::Io, message }),
            },
            _ => Ok(Step::Classify { task }),
        },
        Step::ReadLink { task } => match event {
            Event::Linked { target } => match target {
                Ok(text) => Ok(Step::CreateSymlink { target: text, dest: task.dest }),
                Err(message) => Err(Error { kind: ErrorKind::Io, message }),
            },
            _ => Ok(Step::ReadLink { task }),
        },
        Step::CreateDirectory { task, mode } => copy_directory(
            Step::CreateDirectory { task, mode },
            event,
        ),
        Step::ListDirectory { task } => copy_directory(Step::ListDirectory { task }, event),
        Step::CopyChildren { children } => Ok(collect(children, event)),
        Step::CheckDestination { sources, dest } => copy_many(sources, dest, event),
        Step::Done { had_error, report } => Ok(Step::Done { had_error, report }),
        other => match event {
            Event::Completed { result } => conclude(result),
            _ => Ok(other),
        },
    }
}

/// Advances a copy by one step. A failure ends the copy and becomes its
/// report; it is printed by whoever runs the copy and goes no further than
/// the flag of this copy.
pub fn copy_file(step: Step, event: Event) -> (next: Step)
    ensures
        next@ == self::next(step@, event@),
{
    match copy_file_impl(step, event) {
        Ok(following) => following,
        Err(error) => Step::Done { had_error: true, report: Some(error) },
    }
}

} // verus!
