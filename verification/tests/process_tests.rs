use backend_supervisor::error::SupervisorError;
use backend_supervisor::event::{launch_event, Event};
use backend_supervisor::process::{launch_outcome, LaunchError, LaunchReport, ProcessHandle};

#[test]
fn launch_with_a_created_process_gives_its_handle() {
    let report = LaunchReport { executable_found: true, working_dir_valid: true, spawned: Some(4711) };
    assert_eq!(launch_outcome(report), Ok(ProcessHandle { id: 4711 }));
}

#[test]
fn launch_with_a_created_process_never_loses_it() {
    let report = LaunchReport { executable_found: false, working_dir_valid: false, spawned: Some(9) };
    assert_eq!(launch_outcome(report), Ok(ProcessHandle { id: 9 }));
}

#[test]
fn launch_without_executable_reports_executable_not_found() {
    let report = LaunchReport { executable_found: false, working_dir_valid: true, spawned: None };
    assert_eq!(launch_outcome(report), Err(LaunchError::ExecutableNotFound));
    let both = LaunchReport { executable_found: false, working_dir_valid: false, spawned: None };
    assert_eq!(launch_outcome(both), Err(LaunchError::ExecutableNotFound));
}

#[test]
fn launch_in_a_bad_directory_reports_invalid_working_directory() {
    let report = LaunchReport { executable_found: true, working_dir_valid: false, spawned: None };
    assert_eq!(launch_outcome(report), Err(LaunchError::InvalidWorkingDirectory));
}

#[test]
fn launch_refused_by_the_system_reports_spawn_refused() {
    let report = LaunchReport { executable_found: true, working_dir_valid: true, spawned: None };
    assert_eq!(launch_outcome(report), Err(LaunchError::SpawnRefused));
}

#[test]
fn launch_results_become_launch_events() {
    let handle = ProcessHandle { id: 3 };
    assert_eq!(launch_event(Ok(handle)), Event::LaunchSucceeded(handle));
    assert_eq!(
        launch_event(Err(LaunchError::SpawnRefused)),
        Event::LaunchFailed(LaunchError::SpawnRefused)
    );
}

#[test]
fn only_launch_and_exhaustion_errors_are_terminal() {
    assert!(SupervisorError::Launch(LaunchError::ExecutableNotFound).is_terminal());
    assert!(SupervisorError::Launch(LaunchError::InvalidWorkingDirectory).is_terminal());
    assert!(SupervisorError::Launch(LaunchError::SpawnRefused).is_terminal());
    assert!(SupervisorError::RestartExhausted.is_terminal());
    assert!(!SupervisorError::ReadinessTimeout.is_terminal());
    assert!(!SupervisorError::Crash.is_terminal());
    assert!(!SupervisorError::ShutdownTimeout.is_terminal());
}
