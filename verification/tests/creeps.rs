use volo_ai::creeps::{after_run, after_second_run, should_respawn, Next};
use volo_ai::tasks::{Task, TaskResult};

#[test]
fn working_tasks_are_kept() {
    assert!(matches!(after_run(TaskResult::StillWorking(Task::Idle(2), None), false), Next::Keep(Task::Idle(2), None)));
    assert!(matches!(after_second_run(TaskResult::StillWorking(Task::Speak, None)), Next::Keep(Task::Speak, None)));
    assert!(matches!(after_second_run(TaskResult::Abort), Next::Rest));
}

#[test]
fn aborted_tasks_make_room_for_another() {
    assert!(matches!(after_run(TaskResult::Abort, false), Next::PickAnother));
    assert!(matches!(after_run(TaskResult::Suicide, false), Next::Retire));
    assert!(matches!(after_run(TaskResult::Completed, false), Next::Rest));
}

#[test]
fn handymen_store_no_progress() {
    assert!(matches!(after_run(TaskResult::UpdateRequest(Task::Idle(1)), true), Next::Rest));
    assert!(matches!(after_run(TaskResult::UpdateRequest(Task::Idle(1)), false), Next::Update(Task::Idle(1))));
}

#[test]
fn replacements_are_ordered_once_in_time() {
    assert!(should_respawn(false, Some(100), Some(150)));
    assert!(!should_respawn(true, Some(100), Some(150)));
    assert!(!should_respawn(false, Some(150), Some(150)));
    assert!(!should_respawn(false, None, Some(150)));
    assert!(!should_respawn(false, Some(0), None));
}
