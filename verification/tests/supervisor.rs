use barnaby::rasa_manager::{RasaManager, ServiceState, StartError, SupervisorAction,
    SupervisorEvent, SupervisorStep};

fn drive_to_healthy(mgr: &mut RasaManager) {
    let step = mgr.start();
    assert_eq!(step, SupervisorStep::Act(SupervisorAction::CheckDirectory));
    let step = mgr.on_event(SupervisorEvent::DirectoryChecked(true));
    assert_eq!(step, SupervisorStep::Act(SupervisorAction::CheckBinary));
    let step = mgr.on_event(SupervisorEvent::BinaryChecked(true));
    assert_eq!(step, SupervisorStep::Act(SupervisorAction::CheckModel));
    let step = mgr.on_event(SupervisorEvent::ModelChecked(true));
    assert_eq!(step, SupervisorStep::Act(SupervisorAction::SpawnProcess));
    let step = mgr.on_event(SupervisorEvent::SpawnFinished(true));
    assert_eq!(step, SupervisorStep::Act(SupervisorAction::PollHealth));
    let step = mgr.on_event(SupervisorEvent::HealthChecked(true));
    assert_eq!(step, SupervisorStep::Done);
    assert_eq!(mgr.state(), ServiceState::Healthy);
    assert!(mgr.process_running());
}

#[test]
fn start_reaches_healthy() {
    let mut mgr = RasaManager::new();
    assert_eq!(mgr.state(), ServiceState::Stopped);
    assert!(!mgr.process_running());
    drive_to_healthy(&mut mgr);
}

#[test]
fn start_is_idempotent_when_healthy() {
    let mut mgr = RasaManager::new();
    drive_to_healthy(&mut mgr);
    // A second start performs no action at all: no second spawn.
    let step = mgr.start();
    assert_eq!(step, SupervisorStep::Done);
    assert_eq!(mgr.state(), ServiceState::Healthy);
    assert!(mgr.process_running());
}

#[test]
fn stop_releases_the_process() {
    let mut mgr = RasaManager::new();
    drive_to_healthy(&mut mgr);
    let action = mgr.stop();
    assert_eq!(action, SupervisorAction::TerminateProcess);
    assert_eq!(mgr.state(), ServiceState::Stopped);
    assert!(!mgr.process_running());
    // Stopping again is safe and needs no further teardown.
    let action = mgr.stop();
    assert_eq!(action, SupervisorAction::Idle);
    assert_eq!(mgr.state(), ServiceState::Stopped);
}

#[test]
fn missing_directory_aborts() {
    let mut mgr = RasaManager::new();
    mgr.start();
    let step = mgr.on_event(SupervisorEvent::DirectoryChecked(false));
    assert_eq!(step, SupervisorStep::Abort(StartError::DirectoryMissing));
    assert_eq!(mgr.state(), ServiceState::Failed);
    assert!(!mgr.process_running());
}

#[test]
fn install_strategies_run_in_priority_order() {
    let mut mgr = RasaManager::new();
    mgr.start();
    mgr.on_event(SupervisorEvent::DirectoryChecked(true));
    let step = mgr.on_event(SupervisorEvent::BinaryChecked(false));
    assert_eq!(step, SupervisorStep::Act(SupervisorAction::RunInstall(0)));
    assert_eq!(mgr.state(), ServiceState::Installing);
    let step = mgr.on_event(SupervisorEvent::InstallFinished(false));
    assert_eq!(step, SupervisorStep::Act(SupervisorAction::RunInstall(1)));
    let step = mgr.on_event(SupervisorEvent::InstallFinished(false));
    assert_eq!(step, SupervisorStep::Act(SupervisorAction::RunInstall(2)));
    let step = mgr.on_event(SupervisorEvent::InstallFinished(false));
    assert_eq!(step, SupervisorStep::Act(SupervisorAction::RunInstall(3)));
    let step = mgr.on_event(SupervisorEvent::InstallFinished(false));
    assert_eq!(step, SupervisorStep::Abort(StartError::InstallFailed));
    assert_eq!(mgr.state(), ServiceState::Failed);
}

#[test]
fn first_install_success_wins() {
    let mut mgr = RasaManager::new();
    mgr.start();
    mgr.on_event(SupervisorEvent::DirectoryChecked(true));
    mgr.on_event(SupervisorEvent::BinaryChecked(false));
    mgr.on_event(SupervisorEvent::InstallFinished(false));
    let step = mgr.on_event(SupervisorEvent::InstallFinished(true));
    assert_eq!(step, SupervisorStep::Act(SupervisorAction::CheckModel));
}

#[test]
fn training_runs_when_model_is_missing() {
    let mut mgr = RasaManager::new();
    mgr.start();
    mgr.on_event(SupervisorEvent::DirectoryChecked(true));
    mgr.on_event(SupervisorEvent::BinaryChecked(true));
    let step = mgr.on_event(SupervisorEvent::ModelChecked(false));
    assert_eq!(step, SupervisorStep::Act(SupervisorAction::RunTraining));
    assert_eq!(mgr.state(), ServiceState::Training);
    let step = mgr.on_event(SupervisorEvent::TrainingFinished(false));
    assert_eq!(step, SupervisorStep::Abort(StartError::TrainingFailed));
    assert_eq!(mgr.state(), ServiceState::Failed);
}

#[test]
fn spawn_failure_aborts_without_process() {
    let mut mgr = RasaManager::new();
    mgr.start();
    mgr.on_event(SupervisorEvent::DirectoryChecked(true));
    mgr.on_event(SupervisorEvent::BinaryChecked(true));
    mgr.on_event(SupervisorEvent::ModelChecked(true));
    let step = mgr.on_event(SupervisorEvent::SpawnFinished(false));
    assert_eq!(step, SupervisorStep::Abort(StartError::SpawnFailed));
    assert_eq!(mgr.state(), ServiceState::Failed);
    assert!(!mgr.process_running());
}

#[test]
fn poll_budget_is_thirty_then_failed_with_process_retained() {
    let mut mgr = RasaManager::new();
    mgr.start();
    mgr.on_event(SupervisorEvent::DirectoryChecked(true));
    mgr.on_event(SupervisorEvent::BinaryChecked(true));
    mgr.on_event(SupervisorEvent::ModelChecked(true));
    mgr.on_event(SupervisorEvent::SpawnFinished(true));
    assert_eq!(mgr.state(), ServiceState::Starting);
    for _ in 0..29 {
        let step = mgr.on_event(SupervisorEvent::HealthChecked(false));
        assert_eq!(step, SupervisorStep::Act(SupervisorAction::PollHealth));
    }
    let step = mgr.on_event(SupervisorEvent::HealthChecked(false));
    assert_eq!(step, SupervisorStep::Done);
    assert_eq!(mgr.state(), ServiceState::Failed);
    // The spawned process is retained, so stop can still terminate it.
    assert!(mgr.process_running());
    let action = mgr.stop();
    assert_eq!(action, SupervisorAction::TerminateProcess);
    assert!(!mgr.process_running());
}
