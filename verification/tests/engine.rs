use fcp::aggregate::collect;
use fcp::dispatch::{choose_strategy, copy_file, copy_file_impl, start};
use fcp::filesystem::{Entry, Error, ErrorKind, FileType};
use fcp::orchestrate::{copy_many, find_target, place, place_all, target_for};
use fcp::step::{Child, CopyTask, Event, Step};
use fcp::walk::{children_in, copy_directory};
use fcp::{fcp, identity};

fn text(s: &str) -> String {
    s.to_string()
}

fn task(source: &str, dest: &str) -> CopyTask {
    CopyTask { source: text(source), dest: text(dest) }
}

fn io_error(message: &str) -> Error {
    Error { kind: ErrorKind::Io, message: text(message) }
}

fn done(had_error: bool) -> Step {
    Step::Done { had_error, report: None }
}

fn failed(kind: ErrorKind, message: &str) -> Step {
    Step::Done { had_error: true, report: Some(Error { kind, message: text(message) }) }
}

fn classified(kind: FileType) -> Event {
    Event::Classified { file_type: Ok(kind) }
}

fn completed() -> Event {
    Event::Completed { result: Ok(()) }
}

#[test]
fn identity_returns_its_argument() {
    assert!(identity(true));
    assert!(!identity(false));
}

#[test]
fn no_arguments_is_a_usage_error() {
    let args: Vec<String> = Vec::new();
    assert_eq!(fcp(&args), failed(ErrorKind::Usage, "Please provide at least two arguments"));
}

#[test]
fn one_argument_is_a_usage_error() {
    let args = vec![text("source")];
    assert_eq!(fcp(&args), failed(ErrorKind::Usage, "Please provide at least two arguments"));
}

#[test]
fn two_arguments_copy_the_first_to_the_second() {
    let args = vec![text("source"), text("destination")];
    assert_eq!(fcp(&args), Step::Classify { task: task("source", "destination") });
}

#[test]
fn three_arguments_check_the_last() {
    let args = vec![text("a"), text("b"), text("d")];
    assert_eq!(
        fcp(&args),
        Step::CheckDestination { sources: vec![text("a"), text("b")], dest: text("d") }
    );
}

#[test]
fn many_arguments_keep_their_order() {
    let args = vec![text("z"), text("a"), text("m"), text("a"), text("d")];
    assert_eq!(
        fcp(&args),
        Step::CheckDestination {
            sources: vec![text("z"), text("a"), text("m"), text("a")],
            dest: text("d"),
        }
    );
}

#[test]
fn regular_file_has_its_contents_copied() {
    assert_eq!(
        choose_strategy(task("s", "d"), FileType::Regular),
        Ok(Step::CopyContents { task: task("s", "d") })
    );
}

#[test]
fn directory_is_created_with_its_mode() {
    assert_eq!(
        choose_strategy(task("s", "d"), FileType::Directory(0o40755)),
        Ok(Step::CreateDirectory { task: task("s", "d"), mode: 0o40755 })
    );
}

#[test]
fn symlink_has_its_target_read() {
    assert_eq!(
        choose_strategy(task("s", "d"), FileType::Symlink),
        Ok(Step::ReadLink { task: task("s", "d") })
    );
}

#[test]
fn fifo_is_created_with_its_mode() {
    assert_eq!(
        choose_strategy(task("s", "d"), FileType::Fifo(0o10644)),
        Ok(Step::CreateFifo { dest: text("d"), mode: 0o10644 })
    );
}

#[test]
fn socket_is_unsupported() {
    assert_eq!(
        choose_strategy(task("run/s.sock", "d"), FileType::Socket),
        Err(Error {
            kind: ErrorKind::Unsupported,
            message: text("run/s.sock: sockets cannot be copied"),
        })
    );
}

#[test]
fn devices_are_streamed_with_their_mode() {
    assert_eq!(
        choose_strategy(task("/dev/sda", "d"), FileType::BlockDevice(0o60660)),
        Ok(Step::CopyStream { task: task("/dev/sda", "d"), mode: 0o60660 })
    );
    assert_eq!(
        choose_strategy(task("/dev/tty", "d"), FileType::CharacterDevice(0o20620)),
        Ok(Step::CopyStream { task: task("/dev/tty", "d"), mode: 0o20620 })
    );
}

#[test]
fn classification_leads_to_the_strategy() {
    let step = Step::Classify { task: task("s", "d") };
    assert_eq!(
        copy_file_impl(step, classified(FileType::Regular)),
        Ok(Step::CopyContents { task: task("s", "d") })
    );
}

#[test]
fn failed_classification_is_passed_on() {
    let step = Step::Classify { task: task("s", "d") };
    let event = Event::Classified { file_type: Err(text("s: No such file or directory")) };
    assert_eq!(copy_file_impl(step, event), Err(io_error("s: No such file or directory")));
}

#[test]
fn failure_ends_the_copy_with_a_report() {
    let step = Step::Classify { task: task("s", "d") };
    let event = Event::Classified { file_type: Err(text("s: No such file or directory")) };
    assert_eq!(copy_file(step, event), failed(ErrorKind::Io, "s: No such file or directory"));
}

#[test]
fn socket_ends_the_copy_with_a_report() {
    let step = Step::Classify { task: task("s", "d") };
    assert_eq!(
        copy_file(step, classified(FileType::Socket)),
        failed(ErrorKind::Unsupported, "s: sockets cannot be copied")
    );
}

#[test]
fn finished_operations_end_the_copy() {
    let steps = vec![
        Step::CopyContents { task: task("s", "d") },
        Step::CreateSymlink { target: text("t"), dest: text("d") },
        Step::CreateFifo { dest: text("d"), mode: 0o644 },
        Step::CopyStream { task: task("s", "d"), mode: 0o644 },
    ];
    for step in steps {
        assert_eq!(copy_file(step, completed()), done(false));
    }
}

#[test]
fn failed_operations_end_the_copy_with_a_report() {
    let steps = vec![
        Step::CopyContents { task: task("s", "d") },
        Step::CreateDirectory { task: task("s", "d"), mode: 0o755 },
        Step::CreateSymlink { target: text("t"), dest: text("d") },
        Step::CreateFifo { dest: text("d"), mode: 0o644 },
        Step::CopyStream { task: task("s", "d"), mode: 0o644 },
    ];
    for step in steps {
        let event = Event::Completed { result: Err(text("d: Permission denied")) };
        assert_eq!(copy_file(step, event), failed(ErrorKind::Io, "d: Permission denied"));
    }
}

#[test]
fn link_target_is_taken_as_read() {
    let step = Step::ReadLink { task: task("s", "d") };
    let event = Event::Linked { target: Ok(text("../up/and/over")) };
    assert_eq!(
        copy_file(step, event),
        Step::CreateSymlink { target: text("../up/and/over"), dest: text("d") }
    );
}

#[test]
fn unreadable_link_ends_the_copy() {
    let step = Step::ReadLink { task: task("s", "d") };
    let event = Event::Linked { target: Err(text("s: Invalid argument")) };
    assert_eq!(copy_file(step, event), failed(ErrorKind::Io, "s: Invalid argument"));
}

#[test]
fn created_directory_is_listed() {
    let step = Step::CreateDirectory { task: task("s", "d"), mode: 0o755 };
    assert_eq!(
        copy_directory(step, completed()),
        Ok(Step::ListDirectory { task: task("s", "d") })
    );
}

#[test]
fn directory_that_cannot_be_created_is_not_listed() {
    let step = Step::CreateDirectory { task: task("s", "d"), mode: 0o755 };
    let event = Event::Completed { result: Err(text("d: File exists")) };
    assert_eq!(copy_directory(step, event), Err(io_error("d: File exists")));
}

#[test]
fn listed_entries_become_children() {
    let step = Step::ListDirectory { task: task("s", "d") };
    let entries = vec![
        Entry::Found { name: text("one"), path: text("s/one") },
        Entry::Unreadable { message: text("s: Input/output error") },
        Entry::Found { name: text("two"), path: text("s/two") },
    ];
    assert_eq!(
        copy_directory(step, Event::Listed { entries: Ok(entries) }),
        Ok(Step::CopyChildren {
            children: vec![
                Child::Copy { task: task("s/one", "d/one") },
                Child::Failed { error: io_error("s: Input/output error") },
                Child::Copy { task: task("s/two", "d/two") },
            ],
        })
    );
}

#[test]
fn empty_listing_has_no_children() {
    let step = Step::ListDirectory { task: task("s", "d") };
    assert_eq!(
        copy_directory(step, Event::Listed { entries: Ok(Vec::new()) }),
        Ok(Step::CopyChildren { children: Vec::new() })
    );
}

#[test]
fn failed_listing_ends_the_directory() {
    let step = Step::ListDirectory { task: task("s", "d") };
    let event = Event::Listed { entries: Err(text("s: Permission denied")) };
    assert_eq!(copy_directory(step, event), Err(io_error("s: Permission denied")));
}

#[test]
fn copy_directory_leaves_other_steps() {
    let step = Step::CopyContents { task: task("s", "d") };
    assert_eq!(
        copy_directory(step, completed()),
        Ok(Step::CopyContents { task: task("s", "d") })
    );
}

#[test]
fn children_go_below_the_destination() {
    let entries = vec![Entry::Found { name: text("x"), path: text("s/x") }];
    assert_eq!(children_in("d", &entries), vec![Child::Copy { task: task("s/x", "d/x") }]);
    assert_eq!(children_in("d/", &entries), vec![Child::Copy { task: task("s/x", "d/x") }]);
    assert_eq!(children_in("", &entries), vec![Child::Copy { task: task("s/x", "x") }]);
    assert_eq!(
        children_in("/a/b", &entries),
        vec![Child::Copy { task: task("s/x", "/a/b/x") }]
    );
}

#[test]
fn target_is_the_destination_joined_with_the_final_component() {
    assert_eq!(find_target("d", "a/b/c"), Some(text("d/c")));
    assert_eq!(find_target("d", "c"), Some(text("d/c")));
    assert_eq!(find_target("d", "a/b/"), Some(text("d/b")));
    assert_eq!(find_target("d", "a/."), Some(text("d/a")));
    assert_eq!(find_target("/x/y", "/etc/passwd"), Some(text("/x/y/passwd")));
}

#[test]
fn named_entry_goes_below_the_destination() {
    assert_eq!(target_for("d", Some(text("x"))), Some(text("d/x")));
    assert_eq!(target_for("d/e/", Some(text("x"))), Some(text("d/e/x")));
    assert_eq!(target_for("d", None), None);
}

#[test]
fn path_without_final_component_has_no_target() {
    assert_eq!(find_target("d", ".."), None);
    assert_eq!(find_target("d", "a/.."), None);
    assert_eq!(find_target("d", "/"), None);
    assert_eq!(find_target("d", ""), None);
}

#[test]
fn placed_source_is_copied_to_its_target() {
    assert_eq!(
        place(text("a/b"), Some(text("d/b"))),
        Child::Copy { task: task("a/b", "d/b") }
    );
}

#[test]
fn source_without_target_is_an_invalid_path() {
    assert_eq!(
        place(text("a/.."), None),
        Child::Failed {
            error: Error { kind: ErrorKind::InvalidPath, message: text("a/..: invalid file path") },
        }
    );
}

#[test]
fn every_source_is_placed() {
    let sources = vec![text("a"), text(".."), text("x/c")];
    assert_eq!(
        place_all(&sources, "d"),
        vec![
            Child::Copy { task: task("a", "d/a") },
            Child::Failed {
                error: Error { kind: ErrorKind::InvalidPath, message: text("..: invalid file path") },
            },
            Child::Copy { task: task("x/c", "d/c") },
        ]
    );
}

#[test]
fn sources_fan_out_into_a_directory() {
    let sources = vec![text("a"), text("b"), text("c")];
    assert_eq!(
        copy_many(sources, text("d"), classified(FileType::Directory(0o40755))),
        Ok(Step::CopyChildren {
            children: vec![
                Child::Copy { task: task("a", "d/a") },
                Child::Copy { task: task("b", "d/b") },
                Child::Copy { task: task("c", "d/c") },
            ],
        })
    );
}

#[test]
fn destination_that_is_no_directory_is_a_usage_error() {
    let kinds = vec![
        FileType::Regular,
        FileType::Symlink,
        FileType::Fifo(0o644),
        FileType::Socket,
        FileType::BlockDevice(0o660),
        FileType::CharacterDevice(0o620),
    ];
    for kind in kinds {
        assert_eq!(
            copy_many(vec![text("a"), text("b")], text("d"), classified(kind)),
            Err(Error { kind: ErrorKind::Usage, message: text("d is not a directory") })
        );
    }
}

#[test]
fn missing_destination_is_a_usage_error() {
    let event = Event::Classified { file_type: Err(text("d: No such file or directory")) };
    assert_eq!(
        copy_many(vec![text("a"), text("b")], text("d"), event),
        Err(Error { kind: ErrorKind::Usage, message: text("d: No such file or directory") })
    );
}

#[test]
fn destination_check_fails_through_copy_file() {
    let step = Step::CheckDestination { sources: vec![text("a"), text("b")], dest: text("d") };
    assert_eq!(
        copy_file(step, classified(FileType::Regular)),
        failed(ErrorKind::Usage, "d is not a directory")
    );
}

#[test]
fn destination_check_waits_for_a_classification() {
    let event = Event::Children { flags: vec![false, false] };
    assert_eq!(
        copy_many(vec![text("a"), text("b")], text("d"), event),
        Ok(Step::CheckDestination { sources: vec![text("a"), text("b")], dest: text("d") })
    );
}

#[test]
fn one_failed_child_fails_the_fan_out() {
    let children = || {
        vec![
            Child::Copy { task: task("a", "d/a") },
            Child::Copy { task: task("b", "d/b") },
            Child::Copy { task: task("c", "d/c") },
        ]
    };
    for position in 0..3 {
        let mut flags = vec![false, false, false];
        flags[position] = true;
        assert_eq!(collect(children(), Event::Children { flags }), done(true));
    }
    assert_eq!(collect(children(), Event::Children { flags: vec![true, true, true] }), done(true));
}

#[test]
fn no_failed_child_leaves_the_fan_out_clean() {
    let children = vec![
        Child::Copy { task: task("a", "d/a") },
        Child::Copy { task: task("b", "d/b") },
    ];
    assert_eq!(collect(children, Event::Children { flags: vec![false, false] }), done(false));
    assert_eq!(collect(Vec::new(), Event::Children { flags: Vec::new() }), done(false));
}

#[test]
fn large_fan_out_finds_its_one_failure() {
    let count = 10_000;
    let children = || -> Vec<Child> {
        (0..count).map(|i| Child::Copy { task: task(&format!("s/{}", i), &format!("d/{}", i)) }).collect()
    };
    let mut flags = vec![false; count];
    assert_eq!(collect(children(), Event::Children { flags: flags.clone() }), done(false));
    flags[count - 1] = true;
    assert_eq!(collect(children(), Event::Children { flags }), done(true));
}

#[test]
fn flags_must_answer_the_children_one_for_one() {
    let children = || vec![Child::Copy { task: task("a", "d/a") }, Child::Copy { task: task("b", "d/b") }];
    assert_eq!(
        collect(children(), Event::Children { flags: vec![true] }),
        Step::CopyChildren { children: children() }
    );
    assert_eq!(
        collect(children(), Event::Children { flags: vec![false, false, false] }),
        Step::CopyChildren { children: children() }
    );
    assert_eq!(collect(children(), completed()), Step::CopyChildren { children: children() });
}

#[test]
fn fan_out_closes_through_copy_file() {
    let step = Step::CopyChildren { children: vec![Child::Copy { task: task("a", "d/a") }] };
    assert_eq!(copy_file(step, Event::Children { flags: vec![true] }), done(true));
}

#[test]
fn child_starts_with_its_classification() {
    let child = Child::Copy { task: task("s/x", "d/x") };
    assert_eq!(start(&child), Step::Classify { task: task("s/x", "d/x") });
}

#[test]
fn failed_child_starts_at_its_end() {
    let child = Child::Failed { error: io_error("s: Input/output error") };
    assert_eq!(start(&child), failed(ErrorKind::Io, "s: Input/output error"));
}

#[test]
fn event_of_the_wrong_sort_changes_nothing() {
    let make = || {
        vec![
            Step::Classify { task: task("s", "d") },
            Step::CopyContents { task: task("s", "d") },
            Step::CreateDirectory { task: task("s", "d"), mode: 0o755 },
            Step::ListDirectory { task: task("s", "d") },
            Step::ReadLink { task: task("s", "d") },
            Step::CreateSymlink { target: text("t"), dest: text("d") },
            Step::CreateFifo { dest: text("d"), mode: 0o644 },
            Step::CopyStream { task: task("s", "d"), mode: 0o644 },
            Step::CheckDestination { sources: vec![text("a"), text("b")], dest: text("d") },
        ]
    };
    for (step, same) in make().into_iter().zip(make()) {
        assert_eq!(copy_file(step, Event::Children { flags: Vec::new() }), same);
    }
}

#[test]
fn the_end_is_final() {
    let events = || {
        vec![
            classified(FileType::Regular),
            completed(),
            Event::Listed { entries: Ok(Vec::new()) },
            Event::Linked { target: Ok(text("t")) },
            Event::Children { flags: Vec::new() },
            Event::Completed { result: Err(text("late")) },
        ]
    };
    for event in events() {
        assert_eq!(copy_file(done(false), event), done(false));
    }
    for event in events() {
        assert_eq!(
            copy_file(failed(ErrorKind::Io, "s: gone"), event),
            failed(ErrorKind::Io, "s: gone")
        );
    }
}

#[test]
fn copy_of_an_entry_ends_within_four_answers() {
    let mut step = Step::Classify { task: task("s", "d") };
    let answers = vec![
        classified(FileType::Directory(0o755)),
        completed(),
        Event::Listed { entries: Ok(vec![Entry::Found { name: text("x"), path: text("s/x") }]) },
        Event::Children { flags: vec![false] },
    ];
    for answer in answers {
        assert!(!matches!(step, Step::Done { .. }));
        step = copy_file(step, answer);
    }
    assert_eq!(step, done(false));
}

#[test]
fn only_usage_errors_are_fatal() {
    assert!(Error { kind: ErrorKind::Usage, message: text("d is not a directory") }.is_fatal());
    assert!(!io_error("s: Permission denied").is_fatal());
    assert!(!Error { kind: ErrorKind::Unsupported, message: text("s") }.is_fatal());
    assert!(!Error { kind: ErrorKind::InvalidPath, message: text("s") }.is_fatal());
}

#[test]
fn too_few_arguments_end_fatally() {
    let args = vec![text("source")];
    match fcp(&args) {
        Step::Done { had_error, report: Some(error) } => {
            assert!(had_error);
            assert!(error.is_fatal());
        }
        other => panic!("{:?}", other),
    }
}
