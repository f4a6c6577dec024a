use hyprgreetr::bootstrap::{load_step, ConfigKind, LoadAction, LoadError, LoadSetup};

fn run(setup: &LoadSetup, outcomes: &[bool]) -> Vec<LoadAction> {
    let mut a = LoadAction::start();
    let mut trace = vec![a];
    for &ok in outcomes {
        a = load_step(setup, a, ok);
        trace.push(a);
    }
    trace
}

fn main_setup() -> LoadSetup {
    LoadSetup { kind: ConfigKind::Main, examples: Some(5), has_parent: true }
}

#[test]
fn existing_file_is_read_and_parsed() {
    let t = run(&main_setup(), &[true, true, true]);
    assert_eq!(t, vec![LoadAction::CheckTarget, LoadAction::Read, LoadAction::Parse, LoadAction::Finish]);
}

#[test]
fn malformed_file_is_a_parse_error() {
    let t = run(&main_setup(), &[true, true, false]);
    assert_eq!(*t.last().unwrap(), LoadAction::Fail(LoadError::Parse));
    assert!(!t.iter().any(|a| matches!(a, LoadAction::WriteDefault | LoadAction::CopyExample(_))));
}

#[test]
fn unreadable_file_is_an_io_error() {
    let t = run(&main_setup(), &[true, false]);
    assert_eq!(*t.last().unwrap(), LoadAction::Fail(LoadError::Io));
}

#[test]
fn first_run_without_examples_or_assets() {
    let t = run(&main_setup(), &[false, false, false, false, false, false, true, false, true, true]);
    assert_eq!(
        t,
        vec![
            LoadAction::CheckTarget,
            LoadAction::CheckExample(0),
            LoadAction::CheckExample(1),
            LoadAction::CheckExample(2),
            LoadAction::CheckExample(3),
            LoadAction::CheckExample(4),
            LoadAction::WriteDefault,
            LoadAction::ProvisionAssets,
            LoadAction::Read,
            LoadAction::Parse,
            LoadAction::Finish,
        ]
    );
}

#[test]
fn example_found_is_copied() {
    let t = run(&main_setup(), &[false, false, false, true, true, true, true, true, true]);
    assert_eq!(
        &t[3..],
        &[
            LoadAction::CheckExample(2),
            LoadAction::CreateParent(2),
            LoadAction::CopyExample(2),
            LoadAction::ProvisionAssets,
            LoadAction::Read,
            LoadAction::Parse,
            LoadAction::Finish,
        ]
    );
}

#[test]
fn failed_example_copy_is_fatal_for_main() {
    let t = run(&main_setup(), &[false, true, true, false]);
    assert_eq!(*t.last().unwrap(), LoadAction::Fail(LoadError::Io));
}

#[test]
fn failed_directory_creation_is_fatal_for_main() {
    let t = run(&main_setup(), &[false, true, false]);
    assert_eq!(*t.last().unwrap(), LoadAction::Fail(LoadError::Io));
}

#[test]
fn unknown_executable_is_fatal_for_main() {
    let s = LoadSetup { kind: ConfigKind::Main, examples: None, has_parent: true };
    assert_eq!(load_step(&s, LoadAction::CheckTarget, false), LoadAction::Fail(LoadError::PathResolution));
}

#[test]
fn motd_falls_through_on_failures() {
    let s = LoadSetup { kind: ConfigKind::Motd, examples: Some(2), has_parent: true };
    let t = run(&s, &[false, true, false, false, false, true]);
    assert_eq!(
        t,
        vec![
            LoadAction::CheckTarget,
            LoadAction::CheckExample(0),
            LoadAction::CreateParent(0),
            LoadAction::CopyExample(0),
            LoadAction::CheckExample(1),
            LoadAction::WriteDefault,
            LoadAction::Read,
        ]
    );
    let none = LoadSetup { kind: ConfigKind::Motd, examples: None, has_parent: true };
    assert_eq!(load_step(&none, LoadAction::CheckTarget, false), LoadAction::WriteDefault);
}

#[test]
fn provisioning_failure_still_reads() {
    assert_eq!(load_step(&main_setup(), LoadAction::ProvisionAssets, false), LoadAction::Read);
}

#[test]
fn failed_default_write_is_an_io_error() {
    let s = LoadSetup { kind: ConfigKind::Motd, examples: Some(0), has_parent: false };
    let t = run(&s, &[false, false]);
    assert_eq!(t, vec![LoadAction::CheckTarget, LoadAction::WriteDefault, LoadAction::Fail(LoadError::Io)]);
}
