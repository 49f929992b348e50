use filelock_rs::pid::{
    decimal_bytes, pid_file_path, ConstructStep, DestroyStep, Lifecycle, Pid, StepOutcome,
};

#[test]
fn path_joins_directory_name_and_suffix() {
    assert_eq!(pid_file_path("/tmp", "demo"), "/tmp/demo.pid");
    assert_eq!(pid_file_path("/var/run", "my_program"), "/var/run/my_program.pid");
}

#[test]
fn content_is_the_decimal_digits_and_nothing_else() {
    assert_eq!(decimal_bytes(12345), b"12345".to_vec());
    assert_eq!(decimal_bytes(0), b"0".to_vec());
    assert_eq!(decimal_bytes(7), b"7".to_vec());
    assert_eq!(decimal_bytes(10), b"10".to_vec());
    assert_eq!(decimal_bytes(u32::MAX), b"4294967295".to_vec());
}

#[test]
fn pid_carries_its_path_and_content() {
    let pid = Pid::new("/tmp", "demo", 12345);
    assert_eq!(pid.process_id, 12345);
    assert_eq!(pid.file_path, "/tmp/demo.pid");
    assert_eq!(pid.content(), b"12345".to_vec());
}

#[test]
fn construction_walks_create_lock_write_to_held() {
    let s = Lifecycle::begin_construction();
    assert_eq!(s, Lifecycle::Constructing { step: ConstructStep::Create });
    let s = s.construct_advance(StepOutcome::Success);
    assert_eq!(s, Lifecycle::Constructing { step: ConstructStep::Lock });
    let s = s.construct_advance(StepOutcome::Success);
    assert_eq!(s, Lifecycle::Constructing { step: ConstructStep::Write });
    let s = s.construct_advance(StepOutcome::Success);
    assert_eq!(s, Lifecycle::Held);
}

#[test]
fn contended_lock_fails_the_whole_construction() {
    let would_block = 11;
    let s = Lifecycle::begin_construction()
        .construct_advance(StepOutcome::Success)
        .construct_advance(StepOutcome::Failure { code: would_block });
    assert_eq!(
        s,
        Lifecycle::ConstructionFailed { step: ConstructStep::Lock, code: would_block }
    );
}

#[test]
fn failed_creation_never_reaches_held() {
    let s = Lifecycle::begin_construction()
        .construct_advance(StepOutcome::Failure { code: 13 });
    assert_eq!(s, Lifecycle::ConstructionFailed { step: ConstructStep::Create, code: 13 });
}

#[test]
fn destruction_unlocks_then_removes() {
    let s = Lifecycle::Held.begin_destruction();
    assert_eq!(s, Lifecycle::Destroying { step: DestroyStep::Unlock });
    let s = s.destroy_advance(StepOutcome::Success);
    assert_eq!(s, Lifecycle::Destroying { step: DestroyStep::Remove });
    let s = s.destroy_advance(StepOutcome::Success);
    assert_eq!(s, Lifecycle::Destroyed);
}

#[test]
fn failed_removal_does_not_count_as_destroyed() {
    let s = Lifecycle::Held
        .begin_destruction()
        .destroy_advance(StepOutcome::Success)
        .destroy_advance(StepOutcome::Failure { code: 1 });
    assert_eq!(s, Lifecycle::DestroyFailed { step: DestroyStep::Remove, code: 1 });
}

#[test]
fn round_trip_construct_destroy_construct() {
    let first = Lifecycle::begin_construction()
        .construct_advance(StepOutcome::Success)
        .construct_advance(StepOutcome::Success)
        .construct_advance(StepOutcome::Success);
    assert_eq!(first, Lifecycle::Held);
    let gone = first
        .begin_destruction()
        .destroy_advance(StepOutcome::Success)
        .destroy_advance(StepOutcome::Success);
    assert_eq!(gone, Lifecycle::Destroyed);
    let second = Lifecycle::begin_construction()
        .construct_advance(StepOutcome::Success)
        .construct_advance(StepOutcome::Success)
        .construct_advance(StepOutcome::Success);
    assert_eq!(second, Lifecycle::Held);
}

#[test]
fn scenario_tmp_demo() {
    let pid = Pid::new("/tmp", "demo", 12345);
    assert_eq!(pid.file_path, "/tmp/demo.pid");
    assert_eq!(pid.content(), b"12345".to_vec());
    let held = Lifecycle::begin_construction()
        .construct_advance(StepOutcome::Success)
        .construct_advance(StepOutcome::Success)
        .construct_advance(StepOutcome::Success);
    assert_eq!(held, Lifecycle::Held);
    let racing = Lifecycle::begin_construction()
        .construct_advance(StepOutcome::Success)
        .construct_advance(StepOutcome::Failure { code: 11 });
    assert!(matches!(racing, Lifecycle::ConstructionFailed { .. }));
    let destroyed = held
        .begin_destruction()
        .destroy_advance(StepOutcome::Success)
        .destroy_advance(StepOutcome::Success);
    assert_eq!(destroyed, Lifecycle::Destroyed);
}
