use vstd::prelude::*;
use vstd::string::StringExecFns;
use crate::errors::RunMinecraftError;

verus! {

/// The orchestration's position in one run. A state holds the values the
/// driving routine will need next (the resolved artifact name and link),
/// so that the sequencing decisions all live here.
#[derive(Debug)]
pub enum RunState {
    CheckingEnvironment,
    Resolving,
    CheckingArtifact { filename: String, url: String },
    Downloading { filename: String, url: String },
    CheckingEula { filename: String },
    WritingEula { filename: String },
    Launching { filename: String },
    Streaming,
    Finished,
    Failed(RunMinecraftError),
}

/// What the outside world reports back after performing one action: the
/// probes' answers, the resolver's finding, and each fallible step's
/// outcome as plain text.
#[derive(Debug)]
pub enum RunEvent {
    EnvironmentProbed { marker_dir_present: bool, marker_file_present: bool },
    ResolveSucceeded { filename: String, url: String },
    ResolveFetchFailed { message: String },
    ResolveDecodeFailed { message: String },
    ResolveFoundNoServer,
    ArtifactProbed { present: bool },
    DownloadSucceeded,
    DownloadFetchFailed { message: String },
    DownloadWriteFailed { message: String },
    EulaProbed { present: bool },
    EulaWritten,
    EulaWriteFailed { message: String },
    LaunchSucceeded,
    LaunchFailed { message: String },
    StreamingClosed { result: Result<(), RunMinecraftError> },
}

/// The next outside action the orchestration asks for. The data an action
/// needs (the filename, the link) stands in the state that requests it.
#[derive(Clone, Copy, Debug, PartialEq, Eq, Structural)]
pub enum RunAction {
    ProbeEnvironment,
    ResolveLatestServer,
    ProbeArtifact,
    DownloadArtifact,
    ProbeEula,
    WriteEula,
    LaunchServer,
    StreamOutput,
    Stop,
}

/// Where every run starts: nothing happens before the environment check.
pub open spec fn spec_initial() -> (RunState, RunAction) {
    (RunState::CheckingEnvironment, RunAction::ProbeEnvironment)
}

pub fn initial() -> (r: (RunState, RunAction))
    ensures
        r == spec_initial(),
{
    (RunState::CheckingEnvironment, RunAction::ProbeEnvironment)
}

/// The one outside action each state awaits; the terminal states await
/// nothing and answer every event with `Stop`.
pub open spec fn spec_pending_action(state: RunState) -> RunAction {
    match state {
        RunState::CheckingEnvironment => RunAction::ProbeEnvironment,
        RunState::Resolving => RunAction::ResolveLatestServer,
        RunState::CheckingArtifact { .. } => RunAction::ProbeArtifact,
        RunState::Downloading { .. } => RunAction::DownloadArtifact,
        RunState::CheckingEula { .. } => RunAction::ProbeEula,
        RunState::WritingEula { .. } => RunAction::WriteEula,
        RunState::Launching { .. } => RunAction::LaunchServer,
        RunState::Streaming => RunAction::StreamOutput,
        RunState::Finished => RunAction::Stop,
        RunState::Failed(_) => RunAction::Stop,
    }
}

pub fn pending_action(state: &RunState) -> (action: RunAction)
    ensures
        action == spec_pending_action(*state),
{
    match state {
        RunState::CheckingEnvironment => RunAction::ProbeEnvironment,
        RunState::Resolving => RunAction::ResolveLatestServer,
        RunState::CheckingArtifact { .. } => RunAction::ProbeArtifact,
        RunState::Downloading { .. } => RunAction::DownloadArtifact,
        RunState::CheckingEula { .. } => RunAction::ProbeEula,
        RunState::WritingEula { .. } => RunAction::WriteEula,
        RunState::Launching { .. } => RunAction::LaunchServer,
        RunState::Streaming => RunAction::StreamOutput,
        RunState::Finished => RunAction::Stop,
        RunState::Failed(_) => RunAction::Stop,
    }
}

/// The orchestration's transition rule. An invalid environment fails the
/// run before any network or process activity; each collaborator failure
/// maps to its own error class; the terminal states absorb every further
/// event; an event the current state does not await is ignored and the
/// awaited action asked for again.
pub open spec fn spec_step(state: RunState, event: RunEvent) -> (RunState, RunAction) {
    match (state, event) {
        (
            RunState::CheckingEnvironment,
            RunEvent::EnvironmentProbed { marker_dir_present, marker_file_present },
        ) => {
            if marker_dir_present || marker_file_present {
                (RunState::Resolving, RunAction::ResolveLatestServer)
            } else {
                (RunState::Failed(RunMinecraftError::NoWorld), RunAction::Stop)
            }
        },
        (RunState::Resolving, RunEvent::ResolveSucceeded { filename, url }) => (
            RunState::CheckingArtifact { filename, url },
            RunAction::ProbeArtifact,
        ),
        (RunState::Resolving, RunEvent::ResolveFetchFailed { message }) => (
            RunState::Failed(RunMinecraftError::CouldNotFetch(message)),
            RunAction::Stop,
        ),
        (RunState::Resolving, RunEvent::ResolveDecodeFailed { message }) => (
            RunState::Failed(RunMinecraftError::BadSelector(message)),
            RunAction::Stop,
        ),
        (RunState::Resolving, RunEvent::ResolveFoundNoServer) => (
            RunState::Failed(RunMinecraftError::CouldNotFindServer),
            RunAction::Stop,
        ),
        (RunState::CheckingArtifact { filename, url }, RunEvent::ArtifactProbed { present }) => {
            if present {
                (RunState::CheckingEula { filename }, RunAction::ProbeEula)
            } else {
                (RunState::Downloading { filename, url }, RunAction::DownloadArtifact)
            }
        },
        (RunState::Downloading { filename, url }, RunEvent::DownloadSucceeded) => (
            RunState::CheckingEula { filename },
            RunAction::ProbeEula,
        ),
        (RunState::Downloading { filename, url }, RunEvent::DownloadFetchFailed { message }) => (
            RunState::Failed(RunMinecraftError::CouldNotFetch(message)),
            RunAction::Stop,
        ),
        (RunState::Downloading { filename, url }, RunEvent::DownloadWriteFailed { message }) => (
            RunState::Failed(RunMinecraftError::IoError(message)),
            RunAction::Stop,
        ),
        (RunState::CheckingEula { filename }, RunEvent::EulaProbed { present }) => {
            if present {
                (RunState::Launching { filename }, RunAction::LaunchServer)
            } else {
                (RunState::WritingEula { filename }, RunAction::WriteEula)
            }
        },
        (RunState::WritingEula { filename }, RunEvent::EulaWritten) => (
            RunState::Launching { filename },
            RunAction::LaunchServer,
        ),
        (RunState::WritingEula { filename }, RunEvent::EulaWriteFailed { message }) => (
            RunState::Failed(RunMinecraftError::IoError(message)),
            RunAction::Stop,
        ),
        (RunState::Launching { filename }, RunEvent::LaunchSucceeded) => (
            RunState::Streaming,
            RunAction::StreamOutput,
        ),
        (RunState::Launching { filename }, RunEvent::LaunchFailed { message }) => (
            RunState::Failed(RunMinecraftError::ProcessError(message)),
            RunAction::Stop,
        ),
        (RunState::Streaming, RunEvent::StreamingClosed { result }) => {
            match result {
                Ok(_) => (RunState::Finished, RunAction::Stop),
                Err(e) => (RunState::Failed(e), RunAction::Stop),
            }
        },
        (s, _) => (s, spec_pending_action(s)),
    }
}

/// The executable transition rule; it computes exactly what `spec_step`
/// says, handing ownership of the carried names through the states.
pub fn step(state: RunState, event: RunEvent) -> (r: (RunState, RunAction))
    ensures
        r == spec_step(state, event),
{
    match (state, event) {
        (
            RunState::CheckingEnvironment,
            RunEvent::EnvironmentProbed { marker_dir_present, marker_file_present },
        ) => {
            if marker_dir_present || marker_file_present {
                (RunState::Resolving, RunAction::ResolveLatestServer)
            } else {
                (RunState::Failed(RunMinecraftError::NoWorld), RunAction::Stop)
            }
        },
        (RunState::Resolving, RunEvent::ResolveSucceeded { filename, url }) => (
            RunState::CheckingArtifact { filename, url },
            RunAction::ProbeArtifact,
        ),
        (RunState::Resolving, RunEvent::ResolveFetchFailed { message }) => (
            RunState::Failed(RunMinecraftError::CouldNotFetch(message)),
            RunAction::Stop,
        ),
        (RunState::Resolving, RunEvent::ResolveDecodeFailed { message }) => (
            RunState::Failed(RunMinecraftError::BadSelector(message)),
            RunAction::Stop,
        ),
        (RunState::Resolving, RunEvent::ResolveFoundNoServer) => (
            RunState::Failed(RunMinecraftError::CouldNotFindServer),
            RunAction::Stop,
        ),
        (RunState::CheckingArtifact { filename, url }, RunEvent::ArtifactProbed { present }) => {
            if present {
                (RunState::CheckingEula { filename }, RunAction::ProbeEula)
            } else {
                (RunState::Downloading { filename, url }, RunAction::DownloadArtifact)
            }
        },
        (RunState::Downloading { filename, url: _ }, RunEvent::DownloadSucceeded) => (
            RunState::CheckingEula { filename },
            RunAction::ProbeEula,
        ),
        (RunState::Downloading { .. }, RunEvent::DownloadFetchFailed { message }) => (
            RunState::Failed(RunMinecraftError::CouldNotFetch(message)),
            RunAction::Stop,
        ),
        (RunState::Downloading { .. }, RunEvent::DownloadWriteFailed { message }) => (
            RunState::Failed(RunMinecraftError::IoError(message)),
            RunAction::Stop,
        ),
        (RunState::CheckingEula { filename }, RunEvent::EulaProbed { present }) => {
            if present {
                (RunState::Launching { filename }, RunAction::LaunchServer)
            } else {
                (RunState::WritingEula { filename }, RunAction::WriteEula)
            }
        },
        (RunState::WritingEula { filename }, RunEvent::EulaWritten) => (
            RunState::Launching { filename },
            RunAction::LaunchServer,
        ),
        (RunState::WritingEula { .. }, RunEvent::EulaWriteFailed { message }) => (
            RunState::Failed(RunMinecraftError::IoError(message)),
            RunAction::Stop,
        ),
        (RunState::Launching { .. }, RunEvent::LaunchSucceeded) => (
            RunState::Streaming,
            RunAction::StreamOutput,
        ),
        (RunState::Launching { .. }, RunEvent::LaunchFailed { message }) => (
            RunState::Failed(RunMinecraftError::ProcessError(message)),
            RunAction::Stop,
        ),
        (RunState::Streaming, RunEvent::StreamingClosed { result }) => {
            match result {
                Ok(_) => (RunState::Finished, RunAction::Stop),
                Err(e) => (RunState::Failed(e), RunAction::Stop),
            }
        },
        (s, _) => {
            let action = pending_action(&s);
            (s, action)
        },
    }
}

/// The program the launcher starts.
pub fn launch_program() -> (r: &'static str)
    ensures
        r@ == "java"@,
{
    "java"
}

/// The launcher's fixed argument list for the resolved artifact: memory
/// bounds, the jar to run, and the headless flag, in this order.
pub fn launch_arguments(filename: &str) -> (args: Vec<String>)
    ensures
        args@.len() == 5,
        args@[0]@ == "-Xmx1024M"@,
        args@[1]@ == "-Xms1024M"@,
        args@[2]@ == "-jar"@,
        args@[3]@ == filename@,
        args@[4]@ == "nogui"@,
{
    let mut args: Vec<String> = Vec::new();
    args.push(String::from_str("-Xmx1024M"));
    args.push(String::from_str("-Xms1024M"));
    args.push(String::from_str("-jar"));
    args.push(String::from_str(filename));
    args.push(String::from_str("nogui"));
    args
}

/// The actions a run asks for, one per event handed in, starting from the
/// given state.
pub open spec fn spec_run_trace(state: RunState, events: Seq<RunEvent>) -> Seq<RunAction>
    decreases events.len(),
{
    if events.len() == 0 {
        Seq::<RunAction>::empty()
    } else {
        let stepped = spec_step(state, events[0]);
        seq![stepped.1] + spec_run_trace(stepped.0, events.drop_first())
    }
}

/// A run asks for exactly one action per event handed in.
pub proof fn lemma_run_trace_len(state: RunState, events: Seq<RunEvent>)
    ensures
        spec_run_trace(state, events).len() == events.len(),
    decreases events.len(),
{
    if events.len() > 0 {
        let stepped = spec_step(state, events[0]);
        lemma_run_trace_len(stepped.0, events.drop_first());
    }
}

/// A download is only ever asked for in answer to a probe that found the
/// artifact absent — or asked again by a state that was already awaiting
/// that same download.
pub proof fn lemma_download_needs_absent_artifact(state: RunState, event: RunEvent)
    ensures
        spec_step(state, event).1 is DownloadArtifact ==> (event matches RunEvent::ArtifactProbed {
            present,
        } && !present) || (spec_pending_action(state) is DownloadArtifact),
{
}

/// Writing the acceptance file is only ever asked for in answer to a probe
/// that found it absent — or asked again by a state that was already
/// awaiting that same write.
pub proof fn lemma_eula_write_needs_absent_file(state: RunState, event: RunEvent)
    ensures
        spec_step(state, event).1 is WriteEula ==> (event matches RunEvent::EulaProbed { present }
            && !present) || (spec_pending_action(state) is WriteEula),
{
}

/// Idempotent setup: in a run whose probes always find the artifact and
/// the acceptance file already present — as they do on every run after the
/// first — the orchestration never asks for a download nor for writing the
/// file again.
pub proof fn lemma_idempotent_setup(state: RunState, events: Seq<RunEvent>)
    requires
        !(spec_pending_action(state) is DownloadArtifact),
        !(spec_pending_action(state) is WriteEula),
        forall|i: int|
            0 <= i < events.len() ==> !(#[trigger] events[i] matches RunEvent::ArtifactProbed {
                present: false,
            }),
        forall|i: int|
            0 <= i < events.len() ==> !(#[trigger] events[i] matches RunEvent::EulaProbed {
                present: false,
            }),
    ensures
        forall|j: int|
            0 <= j < spec_run_trace(state, events).len() ==> !(#[trigger] spec_run_trace(
                state,
                events,
            )[j] is DownloadArtifact) && !(spec_run_trace(state, events)[j] is WriteEula),
    decreases events.len(),
{
    if events.len() > 0 {
        let stepped = spec_step(state, events[0]);
        lemma_download_needs_absent_artifact(state, events[0]);
        lemma_eula_write_needs_absent_file(state, events[0]);
        assert(!(stepped.1 is DownloadArtifact));
        assert(!(stepped.1 is WriteEula));
        assert(!(spec_pending_action(stepped.0) is DownloadArtifact));
        assert(!(spec_pending_action(stepped.0) is WriteEula));
        lemma_idempotent_setup(stepped.0, events.drop_first());
        assert forall|j: int| 0 <= j < spec_run_trace(state, events).len() implies !(
        #[trigger] spec_run_trace(state, events)[j] is DownloadArtifact) && !(spec_run_trace(
            state,
            events,
        )[j] is WriteEula) by {
            if j > 0 {
                assert(spec_run_trace(state, events)[j] == spec_run_trace(
                    stepped.0,
                    events.drop_first(),
                )[j - 1]);
            }
        }
    }
}

/// A failed run stays failed and asks for nothing more, whatever else is
/// reported.
pub proof fn lemma_failed_is_absorbing(error: RunMinecraftError, event: RunEvent)
    ensures
        spec_step(RunState::Failed(error), event) == (
            RunState::Failed(error),
            RunAction::Stop,
        ),
{
}

/// Environment rejection: a directory with neither marker fails the run at
/// once with the no-world error, and afterwards the orchestration asks for
/// nothing at all — in particular, zero network actions and zero process
/// launches, whatever else is reported.
pub proof fn lemma_environment_rejection(events: Seq<RunEvent>)
    ensures
        spec_step(
            RunState::CheckingEnvironment,
            RunEvent::EnvironmentProbed { marker_dir_present: false, marker_file_present: false },
        ) == (RunState::Failed(RunMinecraftError::NoWorld), RunAction::Stop),
        forall|j: int|
            0 <= j < events.len() ==> #[trigger] spec_run_trace(
                RunState::Failed(RunMinecraftError::NoWorld),
                events,
            )[j] == RunAction::Stop,
    decreases events.len(),
{
    let failed = RunState::Failed(RunMinecraftError::NoWorld);
    if events.len() > 0 {
        lemma_failed_is_absorbing(RunMinecraftError::NoWorld, events[0]);
        lemma_environment_rejection(events.drop_first());
        lemma_run_trace_len(failed, events);
        lemma_run_trace_len(failed, events.drop_first());
        assert forall|j: int| 0 <= j < events.len() implies #[trigger] spec_run_trace(
            failed,
            events,
        )[j] == RunAction::Stop by {
            if j > 0 {
                assert(spec_run_trace(failed, events)[j] == spec_run_trace(
                    failed,
                    events.drop_first(),
                )[j - 1]);
            }
        }
    }
}

} // verus!
