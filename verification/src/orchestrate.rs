//! The orchestrator: how several sources are copied into one directory.
//!
//! The destination must already be a directory; if it is not, nothing is
//! copied at all. Each source then goes to the destination joined with the
//! source's own final component. A source without such a component fails by
//! itself and holds up no other.

use vstd::prelude::*;
use crate::filesystem::{Error, ErrorKind, ErrorView, FileType};
use crate::path::{file_name, join, path_file_name, path_join};
use crate::step::{Child, ChildView, CopyTask, CopyTaskView, Event, EventView, Step, StepView};
use crate::walk::outcome_view;

verus! {

/// The line printed for a source that has no final component.
pub open spec fn invalid_path_message(source: Seq<char>) -> Seq<char> {
    source + ": invalid file path"@
}

/// The line printed for a destination of several sources that is no
/// directory.
pub open spec fn not_a_directory_message(dest: Seq<char>) -> Seq<char> {
    dest + " is not a directory"@
}

/// The line printed when fewer than two paths are given.
pub open spec fn too_few_arguments_message() -> Seq<char> {
    "Please provide at least two arguments"@
}

/// The first step of an invocation with the paths `args`.
///
/// - Fewer than two paths: the invocation ends at once with a usage error.
/// - Two paths: the first is copied to the second.
/// - More: all but the last are copied into the last, once that has been
///   checked to be a directory.
pub open spec fn plan(args: Seq<Seq<char>>) -> StepView {
    if args.len() < 2 {
        StepView::Done {
            had_error: true,
            report: Some(
                ErrorView { kind: ErrorKind::Usage, message: too_few_arguments_message() },
            ),
        }
    } else if args.len() == 2 {
        StepView::Classify { task: CopyTaskView { source: args[0], dest: args[1] } }
    } else {
        StepView::CheckDestination { sources: args.drop_last(), dest: args.last() }
    }
}

/// Where an entry that is to be called `name` goes inside the directory
/// `dest`: `dest` joined with the name, if there is a name.
pub open spec fn target_named(dest: Seq<char>, name: Option<Seq<char>>) -> Option<Seq<char>> {
    match name {
        Some(name) => Some(path_join(dest, name)),
        None => None,
    }
}

/// Where `source` goes inside the directory `dest`: `dest` joined with the
/// final component of `source`, if it has one.
pub open spec fn target_in(dest: Seq<char>, source: Seq<char>) -> Option<Seq<char>> {
    target_named(dest, path_file_name(source))
}

/// The child that stands for `source`, given the place found for it: its copy
/// to that place, or its failure if there is none.
pub open spec fn placed(source: Seq<char>, target: Option<Seq<char>>) -> ChildView {
    match target {
        Some(dest) => ChildView::Copy { task: CopyTaskView { source, dest } },
        None => ChildView::Failed {
            error: ErrorView {
                kind: ErrorKind::InvalidPath,
                message: invalid_path_message(source),
            },
        },
    }
}

/// The children of a copy of `sources` into the directory `dest`: one for
/// each source, in the order of the sources.
pub open spec fn placed_all(sources: Seq<Seq<char>>, dest: Seq<char>) -> Seq<ChildView> {
    Seq::new(sources.len(), |i: int| placed(sources[i], target_in(dest, sources[i])))
}

/// What follows the check of the destination of several sources.
///
/// - If the destination is a directory, the sources are copied into it.
/// - If it is anything else, or cannot be looked at, the invocation ends with
///   a usage error, and no source is touched.
///
/// An event that does not answer the check leaves it as it is.
pub open spec fn fan_out(sources: Seq<Seq<char>>, dest: Seq<char>, event: EventView) -> Result<
    StepView,
    ErrorView,
> {
    match event {
        EventView::Classified { file_type } => match file_type {
            Ok(kind) => if kind is Directory {
                Ok(StepView::CopyChildren { children: placed_all(sources, dest) })
            } else {
                Err(ErrorView { kind: ErrorKind::Usage, message: not_a_directory_message(dest) })
            },
            Err(message) => Err(ErrorView { kind: ErrorKind::Usage, message }),
        },
        _ => Ok(StepView::CheckDestination { sources, dest }),
    }
}

/// Finds the place inside the directory `dest` of an entry that is to be
/// called `name`.
pub fn target_for(dest: &str, name: Option<String>) -> (target: Option<String>)
    ensures
        target.deep_view() == target_named(dest@, name.deep_view()),
{
    match name {
        Some(name) => Some(join(dest, name.as_str())),
        None => None,
    }
}

/// Finds the place of `source` inside the directory `dest`.
pub fn find_target(dest: &str, source: &str) -> (target: Option<String>)
    ensures
        target.deep_view() == target_in(dest@, source@),
{
    target_for(dest, file_name(source))
}

/// Makes the child that stands for `source` from the place found for it.
pub fn place(source: String, target: Option<String>) -> (child: Child)
    ensures
        child@ == placed(source@, target.deep_view()),
{
    match target {
        Some(dest) => Child::Copy { task: CopyTask { source, dest } },
        None => {
            let mut message = source;
            message.append(": invalid file path");
            Child::Failed { error: Error { kind: ErrorKind::InvalidPath, message } }
        },
    }
}

/// Makes the children of a copy of `sources` into the directory `dest`.
pub fn place_all(sources: &Vec<String>, dest: &str) -> (children: Vec<Child>)
    ensures
        children.deep_view() == placed_all(sources.deep_view(), dest@),
{
    let mut children: Vec<Child> = Vec::new();
    let mut i: usize = 0;
    while i < sources.len()
        invariant
            i <= sources.len(),
            children.len() == i,
            forall|j: int|
                0 <= j < i ==> children[j]@ == placed(
                    #[trigger] sources[j]@,
                    target_in(dest@, sources[j]@),
                ),
        decreases sources.len() - i,
    {
        let target = find_target(dest, sources[i].as_str());
        children.push(place(sources[i].clone(), target));
        i += 1;
    }
    assert(children.deep_view() =~= placed_all(sources.deep_view(), dest@));
    children
}

/// Advances a copy of several sources into one directory past the check of
/// the directory: to the fan-out over the sources if the destination is a
/// directory, to a usage error if it is not.
pub fn copy_many(sources: Vec<String>, dest: String, event: Event) -> (next: Result<Step, Error>)
    ensures
        outcome_view(next) == fan_out(sources.deep_view(), dest@, event@),
{
    match event {
        Event::Classified { file_type } => match file_type {
            Ok(kind) => match kind {
                FileType::Directory(_) => {
                    let children = place_all(&sources, dest.as_str());
                    Ok(Step::CopyChildren { children })
                },
                _ => {
                    let mut message = dest;
                    message.append(" is not a directory");
                    Err(Error { kind: ErrorKind::Usage, message })
                },
            },
            Err(message) => Err(Error { kind: ErrorKind::Usage, message }),
        },
        _ => Ok(Step::CheckDestination { sources, dest }),
    }
}

} // verus!
