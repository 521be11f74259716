//! The decision core of a recursive, parallel file copier.
//!
//! Given source paths and a destination, a copier reproduces the source
//! trees at the destination: regular files, directories, symbolic links and
//! FIFOs as what they are, devices as files that hold what was read from
//! them; sockets are refused. This library takes every decision of such a
//! copy and touches no file. It asks for one piece of work on the filesystem
//! at a time, as a [`step::Step`], and is told how the work went, as a
//! [`step::Event`]:
//!
//! 1. [`fcp`] turns the arguments into the first step.
//! 2. The caller carries out the step and calls [`dispatch::copy_file`] with
//!    the answer, which gives the next step.
//! 3. At `CopyChildren` the caller runs each child from [`dispatch::start`]
//!    to its end, concurrently if it likes, and answers with their flags.
//! 4. At `Done` the caller prints the report, if there is one, and knows
//!    whether anything failed.
//!
//! Failures never travel: one entry's failure ends that entry's copy and sets
//! the flag of every fan-out above it, and no copy of another entry is held
//! up by it.

use vstd::prelude::*;
use crate::filesystem::{Error, ErrorKind};
use crate::orchestrate::plan;
use crate::step::{CopyTask, Step};

pub mod filesystem;
pub mod path;
pub mod step;
pub mod aggregate;
pub mod walk;
pub mod orchestrate;
pub mod dispatch;
pub mod theorems;

verus! {

/// The predicate under which the failure flags of a fan-out are searched: a
/// flag counts as a failure exactly when it is set.
pub fn identity(item: bool) -> (r: bool)
    ensures
        r == item,
{
    item
}

/// Turns the paths given to an invocation into its first step.
///
/// Fewer than two paths end the invocation at once, with a usage error. Two
/// paths are a source and the destination it is copied to. With more, the
/// last is a directory, which is checked first, and the others are copied
/// into it.
pub fn fcp(args: &[String]) -> (step: Step)
    ensures
        step@ == plan(args.deep_view()),
{
    let count = args.len();
    if count < 2 {
        Step::Done {
            had_error: true,
            report: Some(
                Error {
                    kind: ErrorKind::Usage,
                    message: "Please provide at least two arguments".to_owned(),
                },
            ),
        }
    } else if count == 2 {
        Step::Classify { task: CopyTask { source: args[0].clone(), dest: args[1].clone() } }
    } else {
        let mut sources: Vec<String> = Vec::new();
        let mut i: usize = 0;
        while i < count - 1
            invariant
                count == args.len(),
                i <= count - 1,
                sources.len() == i,
                forall|j: int| 0 <= j < i ==> #[trigger] sources[j]@ == args[j]@,
            decreases count - 1 - i,
        {
            sources.push(args[i].clone());
            i += 1;
        }
        assert(sources.deep_view() =~= args.deep_view().drop_last());
        Step::CheckDestination { sources, dest: args[count - 1].clone() }
    }
}

} // verus!
