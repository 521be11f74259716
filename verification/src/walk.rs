//! The tree walker: how a directory is copied.
//!
//! The destination directory is created first, with the mode of the source.
//! Only when that has succeeded is the source listed, and only when the
//! listing has succeeded are the entries copied, each to the path of its own
//! name below the destination. A failure to create or to list fails the
//! directory as a whole. A failure inside the listing fails that entry alone.

use vstd::prelude::*;
use crate::filesystem::{Entry, EntryView, Error, ErrorKind, ErrorView};
use crate::orchestrate::{place, target_for};
use crate::path::path_join;
use crate::step::{Child, ChildView, CopyTaskView, Event, EventView, Step, StepView};

verus! {

/// The mathematical value of a step or of the failure that came in its place.
pub open spec fn outcome_view(outcome: Result<Step, Error>) -> Result<StepView, ErrorView> {
    match outcome {
        Ok(step) => Ok(step@),
        Err(error) => Err(error@),
    }
}

/// The child that stands for one item of the listing of a directory that is
/// copied to `dest`: the entry goes to `dest` joined with its name; a failure
/// to read an entry is a child that has failed.
pub open spec fn child_of(dest: Seq<char>, entry: EntryView) -> ChildView {
    match entry {
        EntryView::Found { name, path } => ChildView::Copy {
            task: CopyTaskView { source: path, dest: path_join(dest, name) },
        },
        EntryView::Unreadable { message } => ChildView::Failed { error: ErrorView::io(message) },
    }
}

/// The children of a directory that is copied to `dest`: one for each item of
/// its listing, in the order of the listing.
pub open spec fn children_of(dest: Seq<char>, entries: Seq<EntryView>) -> Seq<ChildView> {
    Seq::new(entries.len(), |i: int| child_of(dest, entries[i]))
}

/// What follows a step of copying a directory.
///
/// - After the directory has been created, its source is listed.
/// - After the source has been listed, its entries are copied.
/// - A failure of either ends the copy of the directory.
///
/// A step that is neither of the two, and an event that does not answer the
/// step, leave the step as it is.
pub open spec fn walk(step: StepView, event: EventView) -> Result<StepView, ErrorView> {
    match step {
        StepView::CreateDirectory { task, mode } => match event {
            EventView::Completed { result } => match result {
                Ok(_) => Ok(StepView::ListDirectory { task }),
                Err(message) => Err(ErrorView::io(message)),
            },
            _ => Ok(step),
        },
        StepView::ListDirectory { task } => match event {
            EventView::Listed { entries } => match entries {
                Ok(list) => Ok(StepView::CopyChildren { children: children_of(task.dest, list) }),
                Err(message) => Err(ErrorView::io(message)),
            },
            _ => Ok(step),
        },
        _ => Ok(step),
    }
}

/// Makes the children of a directory that is copied to `dest` from its
/// listing.
pub fn children_in(dest: &str, entries: &Vec<Entry>) -> (children: Vec<Child>)
    ensures
        children.deep_view() == children_of(dest@, entries.deep_view()),
{
    let mut children: Vec<Child> = Vec::new();
    let mut i: usize = 0;
    while i < entries.len()
        invariant
            i <= entries.len(),
            children.len() == i,
            forall|j: int| 0 <= j < i ==> children[j]@ == child_of(dest@, #[trigger] entries[j]@),
        decreases entries.len() - i,
    {
        let child = match &entries[i] {
            Entry::Found { name, path } => place(path.clone(), target_for(dest, Some(name.clone()))),
            Entry::Unreadable { message } => Child::Failed {
                error: Error { kind: ErrorKind::Io, message: message.clone() },
            },
        };
        children.push(child);
        i += 1;
    }
    assert(children.deep_view() =~= children_of(dest@, entries.deep_view()));
    children
}

/// Advances the copy of a directory by one step: from the creation of the
/// destination to the listing of the source, and from the listing to the
/// fan-out over the entries.
pub fn copy_directory(step: Step, event: Event) -> (next: Result<Step, Error>)
    ensures
        outcome_view(next) == walk(step@, event@),
{
    match step {
        Step::CreateDirectory { task, mode } => match event {
            Event::Completed { result } => match result {
                Ok(_) => Ok(Step::ListDirectory { task }),
                Err(message) => Err(Error { kind: ErrorKind::Io, message }),
            },
            _ => Ok(Step::CreateDirectory { task, mode }),
        },
        Step::ListDirectory { task } => match event {
            Event::Listed { entries } => match entries {
                Ok(list) => {
                    let children = children_in(task.dest.as_str(), &list);
                    Ok(Step::CopyChildren { children })
                },
                Err(message) => Err(Error { kind: ErrorKind::Io, message }),
            },
            _ => Ok(Step::ListDirectory { task }),
        },
        other => Ok(other),
    }
}

} // verus!
