use run::errors::RunMinecraftError;
use run::orchestrator::{initial, pending_action, step, RunAction, RunEvent, RunState};

#[test]
fn a_run_starts_with_the_environment_check() {
    let (state, action) = initial();
    assert!(matches!(state, RunState::CheckingEnvironment));
    assert_eq!(action, RunAction::ProbeEnvironment);
}

#[test]
fn environment_rejection_stops_everything() {
    let (state, action) = initial();
    assert_eq!(action, RunAction::ProbeEnvironment);
    let (state, action) = step(
        state,
        RunEvent::EnvironmentProbed { marker_dir_present: false, marker_file_present: false },
    );
    assert!(matches!(state, RunState::Failed(RunMinecraftError::NoWorld)));
    assert_eq!(action, RunAction::Stop);
    // whatever is reported afterwards, nothing more is asked for: no
    // network action, no launch
    let (state, action) = step(state, RunEvent::DownloadSucceeded);
    assert!(matches!(state, RunState::Failed(RunMinecraftError::NoWorld)));
    assert_eq!(action, RunAction::Stop);
}

#[test]
fn marker_file_alone_accepts_the_environment() {
    let (state, _) = initial();
    let (state, action) = step(
        state,
        RunEvent::EnvironmentProbed { marker_dir_present: false, marker_file_present: true },
    );
    assert!(matches!(state, RunState::Resolving));
    assert_eq!(action, RunAction::ResolveLatestServer);
}

fn walk_to_artifact_check() -> (RunState, RunAction) {
    let (state, _) = initial();
    let (state, _) = step(
        state,
        RunEvent::EnvironmentProbed { marker_dir_present: true, marker_file_present: false },
    );
    step(
        state,
        RunEvent::ResolveSucceeded {
            filename: "server.jar".to_string(),
            url: "https://example.invalid/server.jar".to_string(),
        },
    )
}

#[test]
fn first_run_downloads_when_artifact_absent() {
    let (state, action) = walk_to_artifact_check();
    assert_eq!(action, RunAction::ProbeArtifact);
    let (state, action) = step(state, RunEvent::ArtifactProbed { present: false });
    assert!(matches!(state, RunState::Downloading { .. }));
    assert_eq!(action, RunAction::DownloadArtifact);
    let (state, action) = step(state, RunEvent::DownloadSucceeded);
    assert!(matches!(state, RunState::CheckingEula { .. }));
    assert_eq!(action, RunAction::ProbeEula);
}

#[test]
fn second_run_skips_download_and_eula_write() {
    // after a first run both the artifact and the acceptance file exist,
    // so a second run's probes report them present and no download nor
    // write is ever asked for
    let (state, action) = walk_to_artifact_check();
    let mut actions = vec![action];
    let (state, action) = step(state, RunEvent::ArtifactProbed { present: true });
    actions.push(action);
    let (state, action) = step(state, RunEvent::EulaProbed { present: true });
    actions.push(action);
    assert!(matches!(state, RunState::Launching { .. }));
    assert!(actions.iter().all(|a| *a != RunAction::DownloadArtifact));
    assert!(actions.iter().all(|a| *a != RunAction::WriteEula));
    assert_eq!(*actions.last().unwrap(), RunAction::LaunchServer);
}

#[test]
fn full_run_happy_path() {
    let (state, action) = walk_to_artifact_check();
    assert_eq!(action, RunAction::ProbeArtifact);
    let (state, _) = step(state, RunEvent::ArtifactProbed { present: false });
    let (state, action) = step(state, RunEvent::DownloadSucceeded);
    assert_eq!(action, RunAction::ProbeEula);
    let (state, action) = step(state, RunEvent::EulaProbed { present: false });
    assert_eq!(action, RunAction::WriteEula);
    let (state, action) = step(state, RunEvent::EulaWritten);
    assert_eq!(action, RunAction::LaunchServer);
    match &state {
        RunState::Launching { filename } => assert_eq!(filename, "server.jar"),
        other => panic!("expected to be launching, got {:?}", other),
    }
    let (state, action) = step(state, RunEvent::LaunchSucceeded);
    assert!(matches!(state, RunState::Streaming));
    assert_eq!(action, RunAction::StreamOutput);
    let (state, action) = step(state, RunEvent::StreamingClosed { result: Ok(()) });
    assert!(matches!(state, RunState::Finished));
    assert_eq!(action, RunAction::Stop);
}

#[test]
fn resolver_failures_map_to_their_error_class() {
    let (state, _) = initial();
    let (state, _) = step(
        state,
        RunEvent::EnvironmentProbed { marker_dir_present: true, marker_file_present: true },
    );
    let (state, action) = step(state, RunEvent::ResolveFoundNoServer);
    assert!(matches!(state, RunState::Failed(RunMinecraftError::CouldNotFindServer)));
    assert_eq!(action, RunAction::Stop);
}

#[test]
fn fetch_failure_maps_to_could_not_fetch() {
    let (state, _) = initial();
    let (state, _) = step(
        state,
        RunEvent::EnvironmentProbed { marker_dir_present: true, marker_file_present: false },
    );
    let (state, _) = step(state, RunEvent::ResolveFetchFailed { message: "dns".to_string() });
    match state {
        RunState::Failed(RunMinecraftError::CouldNotFetch(message)) => assert_eq!(message, "dns"),
        other => panic!("expected a fetch failure, got {:?}", other),
    }
}

#[test]
fn download_write_failure_maps_to_io_error() {
    let (state, _) = walk_to_artifact_check();
    let (state, _) = step(state, RunEvent::ArtifactProbed { present: false });
    let (state, _) = step(
        state,
        RunEvent::DownloadWriteFailed { message: "disk full".to_string() },
    );
    match state {
        RunState::Failed(RunMinecraftError::IoError(message)) => assert_eq!(message, "disk full"),
        other => panic!("expected a local I/O failure, got {:?}", other),
    }
}

#[test]
fn streaming_failure_is_surfaced_as_reported() {
    let (state, _) = walk_to_artifact_check();
    let (state, _) = step(state, RunEvent::ArtifactProbed { present: true });
    let (state, _) = step(state, RunEvent::EulaProbed { present: true });
    let (state, _) = step(state, RunEvent::LaunchSucceeded);
    let (state, action) = step(
        state,
        RunEvent::StreamingClosed {
            result: Err(RunMinecraftError::JoinError("relay panicked".to_string())),
        },
    );
    assert_eq!(action, RunAction::Stop);
    match state {
        RunState::Failed(RunMinecraftError::JoinError(message)) => {
            assert_eq!(message, "relay panicked")
        },
        other => panic!("expected the streaming failure, got {:?}", other),
    }
}

#[test]
fn unawaited_event_is_ignored_and_action_reissued() {
    let (state, _) = initial();
    let (state, action) = step(state, RunEvent::DownloadSucceeded);
    assert!(matches!(state, RunState::CheckingEnvironment));
    assert_eq!(action, RunAction::ProbeEnvironment);
    assert_eq!(pending_action(&state), RunAction::ProbeEnvironment);
}

#[test]
fn environment_acceptance_rule() {
    assert!(run::environment::environment_accepted(true, false));
    assert!(run::environment::environment_accepted(false, true));
    assert!(run::environment::environment_accepted(true, true));
    assert!(!run::environment::environment_accepted(false, false));
}

#[test]
fn launch_failure_maps_to_process_error() {
    let (state, _) = walk_to_artifact_check();
    let (state, _) = step(state, RunEvent::ArtifactProbed { present: true });
    let (state, _) = step(state, RunEvent::EulaProbed { present: true });
    let (state, action) = step(
        state,
        RunEvent::LaunchFailed { message: "java: command not found".to_string() },
    );
    assert_eq!(action, RunAction::Stop);
    match state {
        RunState::Failed(RunMinecraftError::ProcessError(message)) => {
            assert_eq!(message, "java: command not found")
        }
        other => panic!("expected a process failure, got {:?}", other),
    }
}

#[test]
fn launch_command_is_fixed() {
    assert_eq!(run::orchestrator::launch_program(), "java");
    let args = run::orchestrator::launch_arguments("server.jar");
    assert_eq!(args, ["-Xmx1024M", "-Xms1024M", "-jar", "server.jar", "nogui"]);
}
