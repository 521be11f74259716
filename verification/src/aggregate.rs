//! How the failures of the members of a fan-out become one failure signal.
//!
//! Each member reports one flag, and the signal is their disjunction: it is
//! set exactly when some member failed. Nothing else crosses from one member
//! to another, so the order in which concurrent members finish cannot change
//! the signal.

use rayon::iter::{IntoParallelIterator, ParallelIterator};
use vstd::prelude::*;
use crate::identity;
use crate::step::{Child, ChildView, Event, EventView, Step, StepView};

verus! {

/// Whether some flag is set.
pub open spec fn any_set(flags: Seq<bool>) -> bool {
    flags.contains(true)
}

/// The step that follows a fan-out over `children` on `event`: its end, with
/// the disjunction of the flags, if the event brings one flag for each child;
/// the fan-out itself on any other event.
pub open spec fn collected(children: Seq<ChildView>, event: EventView) -> StepView {
    match event {
        EventView::Children { flags } => if flags.len() == children.len() {
            StepView::Done { had_error: any_set(flags), report: None }
        } else {
            StepView::CopyChildren { children }
        },
        _ => StepView::CopyChildren { children },
    }
}

/// Calls rayon's `ParallelIterator::any` on the flags, with [`identity`] as
/// the predicate. rayon documents that `any` returns true if and only if
/// some item matches the predicate; an item matches `identity` when it is
/// set.
#[verifier::external_body]
pub(crate) fn par_any(flags: Vec<bool>) -> (found: bool)
    ensures
        found == any_set(flags@),
{
    flags.into_par_iter().any(identity)
}

/// Closes a fan-out over `children`. The flags are searched in parallel.
pub fn collect(children: Vec<Child>, event: Event) -> (next: Step)
    ensures
        next@ == collected(children.deep_view(), event@),
{
    match event {
        Event::Children { flags } => if flags.len() == children.len() {
            Step::Done { had_error: par_any(flags), report: None }
        } else {
            Step::CopyChildren { children }
        },
        _ => Step::CopyChildren { children },
    }
}

} // verus!
