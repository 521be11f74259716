//! What holds of every copy, proved from the definitions of the steps.

use vstd::prelude::*;
use crate::aggregate::any_set;
use crate::dispatch::{answers, failed, first, next, socket_message};
use crate::filesystem::{EntryView, ErrorKind, ErrorView, FileType};
use crate::orchestrate::{
    not_a_directory_message,
    placed,
    placed_all,
    plan,
    target_in,
    too_few_arguments_message,
};
use crate::path::path_join;
use crate::step::{ChildView, CopyTaskView, EventView, StepView};
use crate::walk::children_of;

verus! {

/// The entry that carrying out `step` makes, by its path and its kind; `None`
/// for a step that makes none. What is read from a device is written to a
/// regular file, so that is what the copy of a device makes.
pub open spec fn makes(step: StepView) -> Option<(Seq<char>, FileType)> {
    match step {
        StepView::CopyContents { task } => Some((task.dest, FileType::Regular)),
        StepView::CreateDirectory { task, mode } => Some((task.dest, FileType::Directory(mode))),
        StepView::CreateSymlink { target, dest } => Some((dest, FileType::Symlink)),
        StepView::CreateFifo { dest, mode } => Some((dest, FileType::Fifo(mode))),
        StepView::CopyStream { task, mode } => Some((task.dest, FileType::Regular)),
        _ => None,
    }
}

/// A bound on the number of answers that a step is away from the end.
pub open spec fn remaining(step: StepView) -> nat {
    match step {
        StepView::Classify { .. } => 4,
        StepView::CreateDirectory { .. } => 3,
        StepView::ListDirectory { .. } => 2,
        StepView::ReadLink { .. } => 2,
        StepView::CheckDestination { .. } => 2,
        StepView::Done { .. } => 0,
        _ => 1,
    }
}

/// The step that a copy has reached from `step` after the events `events`.
pub open spec fn run(step: StepView, events: Seq<EventView>) -> StepView
    decreases events.len(),
{
    if events.len() == 0 {
        step
    } else {
        next(run(step, events.drop_last()), events.last())
    }
}

/// Whether `step` is a step of the copy of `task`: it reads nothing but the
/// source of the task and writes nothing but its destination, and where it
/// fans out, its children are those of a listing, placed below the
/// destination.
pub open spec fn serves(step: StepView, task: CopyTaskView) -> bool {
    match step {
        StepView::Classify { task: own } => own == task,
        StepView::CopyContents { task: own } => own == task,
        StepView::CreateDirectory { task: own, .. } => own == task,
        StepView::ListDirectory { task: own } => own == task,
        StepView::CopyChildren { children } => exists|entries: Seq<EntryView>|
            children == #[trigger] children_of(task.dest, entries),
        StepView::ReadLink { task: own } => own == task,
        StepView::CreateSymlink { dest, .. } => dest == task.dest,
        StepView::CreateFifo { dest, .. } => dest == task.dest,
        StepView::CopyStream { task: own, .. } => own == task,
        StepView::CheckDestination { .. } => false,
        StepView::Done { .. } => true,
    }
}

/// A regular file, a directory and a FIFO are each copied as an entry of the
/// same kind, with the same mode where the kind has one, at the destination
/// of the task.
pub proof fn kind_is_kept(task: CopyTaskView, kind: FileType)
    requires
        kind is Regular || kind is Directory || kind is Fifo,
    ensures
        makes(next(StepView::Classify { task }, EventView::Classified { file_type: Ok(kind) }))
            == Some((task.dest, kind)),
{
}

/// A symbolic link is copied as a symbolic link at the destination of the
/// task, and its target is the target that was read, unchanged. Nothing is
/// made before the target has been read.
pub proof fn link_is_kept(task: CopyTaskView, target: Seq<char>)
    ensures
        ({
            let reading = next(
                StepView::Classify { task },
                EventView::Classified { file_type: Ok(FileType::Symlink) },
            );
            let linking = next(reading, EventView::Linked { target: Ok(target) });
            &&& makes(reading) is None
            &&& linking == StepView::CreateSymlink { target, dest: task.dest }
            &&& makes(linking) == Some((task.dest, FileType::Symlink))
        }),
{
}

/// A device of either sort is copied as a stream from the source to a file at
/// the destination, made with the mode of the device.
pub proof fn device_is_streamed(task: CopyTaskView, kind: FileType)
    requires
        kind.is_device(),
    ensures
        ({
            let step = next(
                StepView::Classify { task },
                EventView::Classified { file_type: Ok(kind) },
            );
            &&& step == StepView::CopyStream { task, mode: kind.mode()->0 }
            &&& makes(step) == Some((task.dest, FileType::Regular))
        }),
{
}

/// The copy of a socket fails at once: it ends with an unsupported-entry
/// report that is the source followed by ": sockets cannot be copied", and
/// no step that makes an entry comes before the end.
pub proof fn socket_is_refused(task: CopyTaskView)
    ensures
        ({
            let end = next(
                StepView::Classify { task },
                EventView::Classified { file_type: Ok(FileType::Socket) },
            );
            let message = socket_message(task.source);
            &&& end == failed(ErrorView { kind: ErrorKind::Unsupported, message })
            &&& makes(end) is None
            &&& message.len() == task.source.len() + ": sockets cannot be copied"@.len()
            &&& message.subrange(task.source.len() as int, message.len() as int)
                == ": sockets cannot be copied"@
        }),
{
    let message = socket_message(task.source);
    assert(message.subrange(task.source.len() as int, message.len() as int)
        =~= ": sockets cannot be copied"@);
}

/// Several sources are copied only into a directory. If the destination is
/// anything else, or cannot be looked at, the invocation ends with a usage
/// error before any source is touched; where the destination could be looked
/// at, the report names it.
pub proof fn destination_must_be_directory(
    sources: Seq<Seq<char>>,
    dest: Seq<char>,
    file_type: Result<FileType, Seq<char>>,
)
    requires
        !(file_type matches Ok(kind) && kind is Directory),
    ensures
        ({
            let end = next(
                StepView::CheckDestination { sources, dest },
                EventView::Classified { file_type },
            );
            &&& end matches StepView::Done { had_error, report }
            &&& had_error
            &&& report matches Some(error)
            &&& error.kind == ErrorKind::Usage
            &&& file_type is Ok ==> error.message == not_a_directory_message(dest)
            &&& file_type matches Err(cause) ==> error.message == cause
        }),
{
}

/// With fewer than two paths an invocation ends at once with a usage error;
/// with two or more it never does.
pub proof fn argument_count_boundary(args: Seq<Seq<char>>)
    ensures
        args.len() < 2 ==> plan(args) == failed(
            ErrorView { kind: ErrorKind::Usage, message: too_few_arguments_message() },
        ),
        args.len() >= 2 ==> !(plan(args) is Done),
        args.len() == 2 ==> plan(args) == (StepView::Classify {
            task: CopyTaskView { source: args[0], dest: args[1] },
        }),
{
}

/// When several sources are copied into a directory, every source has its own
/// child, in the order of the sources, and what the child is depends on that
/// source and on the destination alone.
pub proof fn every_source_has_its_child(sources: Seq<Seq<char>>, dest: Seq<char>, mode: u32)
    ensures
        ({
            let step = next(
                StepView::CheckDestination { sources, dest },
                EventView::Classified { file_type: Ok(FileType::Directory(mode)) },
            );
            &&& step matches StepView::CopyChildren { children }
            &&& children.len() == sources.len()
            &&& forall|i: int|
                0 <= i < sources.len() ==> #[trigger] children[i] == placed(
                    sources[i],
                    target_in(dest, sources[i]),
                )
        }),
{
}

/// The failure signal of a fan-out does not depend on the order of the
/// flags: two sequences that hold the same flags, each as often, give the
/// same signal.
pub proof fn signal_ignores_order(a: Seq<bool>, b: Seq<bool>)
    requires
        a.to_multiset() == b.to_multiset(),
    ensures
        any_set(a) == any_set(b),
{
    a.to_multiset_ensures();
    b.to_multiset_ensures();
    assert(a.contains(true) <==> a.to_multiset().count(true) > 0);
    assert(b.contains(true) <==> b.to_multiset().count(true) > 0);
}

/// The failure signal of two fan-outs taken together is the disjunction of
/// their signals.
pub proof fn signal_of_parts(a: Seq<bool>, b: Seq<bool>)
    ensures
        any_set(a + b) == (any_set(a) || any_set(b)),
{
    if any_set(a) {
        let i = choose|i: int| 0 <= i < a.len() && a[i] == true;
        assert((a + b)[i] == true);
    }
    if any_set(b) {
        let i = choose|i: int| 0 <= i < b.len() && b[i] == true;
        assert((a + b)[a.len() + i] == true);
    }
    if any_set(a + b) {
        let i = choose|i: int| 0 <= i < (a + b).len() && (a + b)[i] == true;
        if i < a.len() {
            assert(a[i] == true);
        } else {
            assert(b[i - a.len()] == true);
        }
    }
}

/// The failure of one entry of a directory holds up no other: whatever the
/// listing holds, every entry that was found gets its own child, from its
/// path to the destination joined with its name; and once each child has
/// reported, the copy of the directory ends, having failed exactly if some
/// child has.
pub proof fn failure_is_isolated(task: CopyTaskView, entries: Seq<EntryView>, flags: Seq<bool>)
    requires
        flags.len() == entries.len(),
    ensures
        ({
            let fan = next(StepView::ListDirectory { task }, EventView::Listed { entries: Ok(entries) });
            let end = next(fan, EventView::Children { flags });
            &&& fan matches StepView::CopyChildren { children }
            &&& children.len() == entries.len()
            &&& forall|i: int|
                0 <= i < entries.len() ==> (#[trigger] entries[i] matches EntryView::Found {
                    name,
                    path,
                } ==> children[i] == ChildView::Copy {
                    task: CopyTaskView { source: path, dest: path_join(task.dest, name) },
                })
            &&& end == StepView::Done { had_error: any_set(flags), report: None }
        }),
{
}

/// The path reached from `root` by going down through the entries named
/// `names`, one after the other.
pub open spec fn below(root: Seq<char>, names: Seq<Seq<char>>) -> Seq<char>
    decreases names.len(),
{
    if names.len() == 0 {
        root
    } else {
        path_join(below(root, names.drop_last()), names.last())
    }
}

/// Every entry of a tree goes to the same place in the copy of the tree:
/// where a directory that lies below the source by some names is copied to
/// the path that lies below the destination by the same names, each entry
/// that its listing names by the directory's path and the entry's name is
/// copied from the source to the destination by those names and its own.
pub proof fn relative_path_is_kept(
    source: Seq<char>,
    dest: Seq<char>,
    names: Seq<Seq<char>>,
    entries: Seq<EntryView>,
    i: int,
)
    requires
        0 <= i < entries.len(),
        entries[i] matches EntryView::Found { name, path } && path == path_join(
            below(source, names),
            name,
        ),
    ensures
        children_of(below(dest, names), entries)[i] == (ChildView::Copy {
            task: CopyTaskView {
                source: below(source, names.push(entries[i]->name)),
                dest: below(dest, names.push(entries[i]->name)),
            },
        }),
{
    let name = entries[i]->name;
    assert(names.push(name).drop_last() =~= names);
}

/// A directory exists at the destination before anything is copied into it:
/// a source directory is listed only after its destination has been created,
/// and a fan-out only follows a listing that succeeded or a destination that
/// was found to be a directory.
pub proof fn children_follow_their_directory(step: StepView, event: EventView)
    ensures
        next(step, event) is ListDirectory && !(step is ListDirectory) ==> {
            &&& step matches StepView::CreateDirectory { task, .. }
            &&& event matches EventView::Completed { result: Ok(_) }
            &&& next(step, event) == StepView::ListDirectory { task }
        },
        next(step, event) is CopyChildren && !(step is CopyChildren) ==> {
            ||| step is ListDirectory && event matches EventView::Listed { entries: Ok(_) }
            ||| step is CheckDestination && event matches EventView::Classified {
                file_type: Ok(FileType::Directory(_)),
            }
        },
{
}

/// Every answer brings a copy nearer to its end, and nothing else moves it:
/// an event that answers the step leads to a step with fewer answers left,
/// and any other event leaves the step as it is. The end is final.
pub proof fn every_answer_advances(step: StepView, event: EventView)
    ensures
        answers(step, event) ==> remaining(next(step, event)) < remaining(step),
        !answers(step, event) ==> next(step, event) == step,
        step is Done ==> next(step, event) == step,
{
}

/// No failure is reported by a copy that claims to have succeeded: the first
/// step of an invocation and of a child are consistent, and every step that
/// follows a consistent step is consistent.
pub proof fn reports_are_failures(
    args: Seq<Seq<char>>,
    child: ChildView,
    step: StepView,
    event: EventView,
)
    ensures
        plan(args).consistent(),
        first(child).consistent(),
        step.consistent() ==> next(step, event).consistent(),
{
}

/// Whatever the filesystem answers, the copy of an entry only ever serves its
/// own task: every step it reaches reads the task's source or writes at the
/// task's destination, and its children are placed below that destination.
pub proof fn copy_stays_on_task(task: CopyTaskView, events: Seq<EventView>)
    ensures
        serves(run(StepView::Classify { task }, events), task),
    decreases events.len(),
{
    if events.len() > 0 {
        copy_stays_on_task(task, events.drop_last());
        let before = run(StepView::Classify { task }, events.drop_last());
        let event = events.last();
        match before {
            StepView::ListDirectory { task: own } => {
                if let EventView::Listed { entries: Ok(list) } = event {
                    assert(next(before, event) == StepView::CopyChildren {
                        children: children_of(task.dest, list),
                    });
                }
            },
            _ => {},
        }
    }
}

/// Whether each event of `events` answers the step that the copy has reached
/// when the event comes.
pub open spec fn answered_throughout(step: StepView, events: Seq<EventView>) -> bool {
    forall|k: int|
        0 <= k < events.len() ==> answers(run(step, #[trigger] events.take(k)), events[k])
}

/// A copy ends after as many answers as its first step is away from the end,
/// or sooner: the copy of one entry after four, whatever the entry is.
pub proof fn answers_end_a_copy(step: StepView, events: Seq<EventView>)
    requires
        answered_throughout(step, events),
    ensures
        remaining(run(step, events)) + events.len() <= remaining(step),
        events.len() == remaining(step) ==> run(step, events) is Done,
    decreases events.len(),
{
    if events.len() > 0 {
        let before = events.drop_last();
        assert forall|k: int| 0 <= k < before.len() implies answers(
            run(step, #[trigger] before.take(k)),
            before[k],
        ) by {
            assert(before.take(k) =~= events.take(k));
        }
        answers_end_a_copy(step, before);
        assert(events.take(events.len() - 1) =~= before);
        every_answer_advances(run(step, before), events.last());
    }
}

/// What the outside does for one copy: the answers of the filesystem, in
/// their order, and, for the fan-out that the copy may come to, what the
/// outside does for each child.
pub struct Script {
    pub answers: Seq<EventView>,
    pub children: Seq<Script>,
}

/// The step that a copy has reached from `step` when the filesystem has given
/// the answers `answers`. The flags of a fan-out are not the filesystem's to
/// give: such an event is passed over.
pub open spec fn told(step: StepView, answers: Seq<EventView>) -> StepView
    decreases answers.len(),
{
    if answers.len() == 0 {
        step
    } else if answers.last() is Children {
        told(step, answers.drop_last())
    } else {
        next(told(step, answers.drop_last()), answers.last())
    }
}

/// Whether `step` is the end of a copy that had an error.
pub open spec fn flag(step: StepView) -> bool {
    step matches StepView::Done { had_error, .. } && had_error
}

/// Whether `step`, if it is an end, has failed exactly if it has something to
/// report. The first step of an invocation is such a step, and so is the
/// first step of every child.
pub open spec fn candid(step: StepView) -> bool {
    step matches StepView::Done { had_error, report } ==> (had_error <==> report is Some)
}

/// The step at which a copy that starts at `step` stands when the outside has
/// done what `script` says: the filesystem has given its answers, and if the
/// copy has come to a fan-out and the script has a part for each child, every
/// child has been run on its part and the fan-out has been closed with the
/// children's flags.
pub open spec fn outcome(step: StepView, script: Script) -> StepView
    decreases script, 0nat,
{
    let reached = told(step, script.answers);
    match reached {
        StepView::CopyChildren { children } => if script.children.len() == children.len() {
            next(reached, EventView::Children { flags: flags_of(children, script.children) })
        } else {
            reached
        },
        _ => reached,
    }
}

/// The flags of the children of a fan-out, each run on its part of `scripts`:
/// a child's flag is set if its copy has ended with an error.
pub open spec fn flags_of(children: Seq<ChildView>, scripts: Seq<Script>) -> Seq<bool>
    decreases scripts, 1nat,
{
    Seq::new(
        children.len(),
        |i: int|
            if 0 <= i < scripts.len() {
                flag(outcome(first(children[i]), scripts[i]))
            } else {
                false
            },
    )
}

/// Whether a copy that starts at `step` and is run as `script` says, or one
/// of the copies below it, ends with a report.
pub open spec fn reported(step: StepView, script: Script) -> bool
    decreases script,
{
    match told(step, script.answers) {
        StepView::Done { report, .. } => report is Some,
        StepView::CopyChildren { children } => script.children.len() == children.len()
            && exists|i: int|
            #![trigger script.children[i]]
            0 <= i < children.len() && reported(first(children[i]), script.children[i]),
        _ => false,
    }
}

/// The answers of the filesystem keep a copy candid.
pub proof fn answers_keep_candid(step: StepView, answers: Seq<EventView>)
    requires
        candid(step),
    ensures
        candid(told(step, answers)),
    decreases answers.len(),
{
    if answers.len() > 0 {
        answers_keep_candid(step, answers.drop_last());
    }
}

/// A copy fails exactly if something is reported: the end of a whole copy has
/// its error flag set if and only if the copy itself, or the copy of some
/// entry anywhere below it, has ended with a report. No failure goes
/// unreported, and none is lost on the way up.
pub proof fn failure_is_reported(step: StepView, script: Script)
    requires
        candid(step),
    ensures
        flag(outcome(step, script)) <==> reported(step, script),
    decreases script,
{
    answers_keep_candid(step, script.answers);
    let reached = told(step, script.answers);
    if let StepView::CopyChildren { children } = reached {
        if script.children.len() == children.len() {
            let flags = flags_of(children, script.children);
            assert forall|i: int|
                #![trigger script.children[i]]
                0 <= i < children.len() implies (flags[i] <==> reported(
                first(children[i]),
                script.children[i],
            )) by {
                failure_is_reported(first(children[i]), script.children[i]);
            }
            assert(outcome(step, script) == StepView::Done {
                had_error: any_set(flags),
                report: None,
            });
            if any_set(flags) {
                let i = choose|i: int| 0 <= i < flags.len() && flags[i] == true;
                assert(reported(first(children[i]), script.children[i]));
            }
        }
    }
}

/// The class of a report tells where the failure arose. A copy that ends on
/// an answer ends with a usage error exactly if the answer was to the check
/// of the destination of several sources, and with an unsupported-entry error
/// exactly if the answer was that the source is a socket; no copy ends on an
/// answer with an invalid-path error.
pub proof fn class_tells_the_cause(step: StepView, event: EventView)
    requires
        !(step is Done),
    ensures
        next(step, event) matches StepView::Done { report: Some(error), .. } ==> {
            &&& error.kind == ErrorKind::Usage <==> step is CheckDestination
            &&& error.kind == ErrorKind::Unsupported <==> step is Classify && event
                == (EventView::Classified { file_type: Ok(FileType::Socket) })
            &&& error.kind != ErrorKind::InvalidPath
        },
{
}

/// The copy of an entry never ends the invocation: whatever the filesystem
/// answers, the report of its end, if it has one, is not fatal.
pub proof fn entries_never_end_fatally(task: CopyTaskView, events: Seq<EventView>)
    ensures
        run(StepView::Classify { task }, events) matches StepView::Done {
            report: Some(error),
            ..
        } ==> !error.is_fatal(),
    decreases events.len(),
{
    if events.len() > 0 {
        entries_never_end_fatally(task, events.drop_last());
        copy_stays_on_task(task, events.drop_last());
    }
}

/// No child of a fan-out starts at a fatal end, be it the child of a
/// directory or of a copy of several sources.
pub proof fn children_never_start_fatally(
    dest: Seq<char>,
    entries: Seq<EntryView>,
    sources: Seq<Seq<char>>,
)
    ensures
        forall|i: int|
            0 <= i < entries.len() ==> !(first(#[trigger] children_of(dest, entries)[i])
                matches StepView::Done { report: Some(error), .. } && error.is_fatal()),
        forall|i: int|
            0 <= i < sources.len() ==> !(first(#[trigger] placed_all(sources, dest)[i])
                matches StepView::Done { report: Some(error), .. } && error.is_fatal()),
{
}

/// The steps that an invocation with more than two paths can be at.
spec fn orchestrating(step: StepView) -> bool {
    step is CheckDestination || step is CopyChildren || step is Done
}

proof fn orchestration_stays(step: StepView, events: Seq<EventView>)
    requires
        orchestrating(step),
    ensures
        orchestrating(run(step, events)),
        step is Done ==> run(step, events) == step,
        step is CopyChildren ==> run(step, events) is CopyChildren || run(step, events)
            matches StepView::Done { report: None, .. },
    decreases events.len(),
{
    if events.len() > 0 {
        orchestration_stays(step, events.drop_last());
    }
}

/// An invocation that ends fatally has done no work: if its end reports a
/// fatal failure, then no step on the way to the end has made an entry or
/// fanned out.
pub proof fn fatal_end_has_done_nothing(args: Seq<Seq<char>>, events: Seq<EventView>, k: int)
    requires
        0 <= k <= events.len(),
        run(plan(args), events) matches StepView::Done { report: Some(error), .. }
            && error.is_fatal(),
    ensures
        makes(run(plan(args), events.take(k))) is None,
        !(run(plan(args), events.take(k)) is CopyChildren),
{
    let early = events.take(k);
    let late = events.skip(k);
    if args.len() == 2 {
        entries_never_end_fatally(CopyTaskView { source: args[0], dest: args[1] }, events);
    } else {
        orchestration_stays(plan(args), early);
        run_in_two(plan(args), early, late);
        assert(early + late =~= events);
        orchestration_stays(run(plan(args), early), late);
    }
}

/// A copy run on two sequences of events, one after the other, is the copy
/// run on both together.
pub proof fn run_in_two(step: StepView, early: Seq<EventView>, late: Seq<EventView>)
    ensures
        run(step, early + late) == run(run(step, early), late),
    decreases late.len(),
{
    if late.len() == 0 {
        assert(early + late =~= early);
    } else {
        run_in_two(step, early, late.drop_last());
        assert((early + late).drop_last() =~= early + late.drop_last());
        assert((early + late).last() == late.last());
    }
}

} // verus!
