use vstd::prelude::*;
use crate::message::OutputMessage;

verus! {

/// A failure of one relay task: either the underlying read of the child's
/// output failed, or forwarding a decoded line into the shared channel
/// failed. The payloads hold the failing operation's own report: the text
/// of the read error, or the line that could not be forwarded.
#[derive(Debug)]
pub enum ThreadError {
    IoError(String),
    SendError(OutputMessage),
}

/// The one top-level error type of a run, distinguishing the failure
/// classes: environment, resolution, transfer, local I/O, process and
/// streaming failures. A process failure — the child could not be spawned,
/// or its output handles could not be captured — is a class of its own,
/// distinct from local I/O. Payloads are the plain text reported by the
/// failing step, so that a caller can print a single human-readable
/// message.
#[derive(Debug)]
pub enum RunMinecraftError {
    IoError(String),
    GenericError(String),
    NoWorld,
    CouldNotFetch(String),
    BadSelector(String),
    CouldNotFindServer,
    ProcessError(String),
    JoinError(String),
    ThreadError(ThreadError),
}

impl ThreadError {
    /// The human-readable description of this failure class.
    pub open spec fn spec_describe(&self) -> Seq<char> {
        match self {
            ThreadError::IoError(_) => "error in reading Minecraft output"@,
            ThreadError::SendError(_) => "error in forwarding Minecraft output"@,
        }
    }

    pub fn describe(&self) -> (r: &'static str)
        ensures
            r@ == self.spec_describe(),
    {
        match self {
            ThreadError::IoError(_) => "error in reading Minecraft output",
            ThreadError::SendError(_) => "error in forwarding Minecraft output",
        }
    }
}

impl RunMinecraftError {
    /// The human-readable description of this failure class.
    pub open spec fn spec_describe(&self) -> Seq<char> {
        match self {
            RunMinecraftError::IoError(_) => "error in reading Minecraft world directory"@,
            RunMinecraftError::GenericError(_) => "generic error in processing Minecraft world"@,
            RunMinecraftError::NoWorld => "target directory does not contain a Minecraft world"@,
            RunMinecraftError::CouldNotFetch(_) => "error in fetching Minecraft webpage"@,
            RunMinecraftError::BadSelector(_) => "error in decoding Minecraft webpage"@,
            RunMinecraftError::CouldNotFindServer => "error finding latest Minecraft server"@,
            RunMinecraftError::ProcessError(_) => "error in launching Minecraft server process"@,
            RunMinecraftError::JoinError(_) => "threading error"@,
            RunMinecraftError::ThreadError(_) => "threading error"@,
        }
    }

    pub fn describe(&self) -> (r: &'static str)
        ensures
            r@ == self.spec_describe(),
    {
        match self {
            RunMinecraftError::IoError(_) => "error in reading Minecraft world directory",
            RunMinecraftError::GenericError(_) => "generic error in processing Minecraft world",
            RunMinecraftError::NoWorld => "target directory does not contain a Minecraft world",
            RunMinecraftError::CouldNotFetch(_) => "error in fetching Minecraft webpage",
            RunMinecraftError::BadSelector(_) => "error in decoding Minecraft webpage",
            RunMinecraftError::CouldNotFindServer => "error finding latest Minecraft server",
            RunMinecraftError::ProcessError(_) => "error in launching Minecraft server process",
            RunMinecraftError::JoinError(_) => "threading error",
            RunMinecraftError::ThreadError(_) => "threading error",
        }
    }
}

/// How one relay task ended: normally, with its own failure, or with a
/// failure to join the task at all.
#[derive(Debug)]
pub enum RelayOutcome {
    Finished,
    Failed(ThreadError),
    JoinFailed(String),
}

impl RelayOutcome {
    /// The run-level error this outcome surfaces as, if any: a join failure
    /// is reported before the task's own failure, and a finished task
    /// surfaces nothing.
    pub open spec fn spec_surfaced(self) -> Option<RunMinecraftError> {
        match self {
            RelayOutcome::Finished => None,
            RelayOutcome::Failed(t) => Some(RunMinecraftError::ThreadError(t)),
            RelayOutcome::JoinFailed(m) => Some(RunMinecraftError::JoinError(m)),
        }
    }
}

/// Joins the terminal outcomes of one run: the aggregator's own failure, if
/// any, and the two relay tasks' outcomes, in join order. Exactly one
/// top-level error is surfaced per run: the first one encountered, with the
/// aggregator's failure taken as primary, then the first relay's, then the
/// second's. The run succeeds only if the aggregator and both relays all
/// finished without error.
pub fn join_outcomes(
    aggregator: Option<RunMinecraftError>,
    first: RelayOutcome,
    second: RelayOutcome,
) -> (r: Result<(), RunMinecraftError>)
    ensures
        r is Ok <==> (aggregator is None && first is Finished && second is Finished),
        aggregator is Some ==> r == Result::<(), RunMinecraftError>::Err(aggregator->0),
        aggregator is None && !(first is Finished) ==> r == Result::<(), RunMinecraftError>::Err(
            first.spec_surfaced()->0,
        ),
        aggregator is None && first is Finished && !(second is Finished) ==> r == Result::<(), RunMinecraftError>::Err(
            second.spec_surfaced()->0,
        ),
{
    if let Some(e) = aggregator {
        return Err(e);
    }
    match first {
        RelayOutcome::Failed(t) => {
            return Err(RunMinecraftError::ThreadError(t));
        },
        RelayOutcome::JoinFailed(m) => {
            return Err(RunMinecraftError::JoinError(m));
        },
        RelayOutcome::Finished => {},
    }
    match second {
        RelayOutcome::Failed(t) => Err(RunMinecraftError::ThreadError(t)),
        RelayOutcome::JoinFailed(m) => Err(RunMinecraftError::JoinError(m)),
        RelayOutcome::Finished => Ok(()),
    }
}

} // verus!
