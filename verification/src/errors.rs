//! Closed taxonomy of failures propagated by the task manager, the response
//! pipeline and the artifact extractor. Failures of outside collaborators are
//! carried as diagnostic strings.

use vstd::prelude::*;

verus! {

/// Failures of the coordinator task manager itself.
#[derive(Debug, Clone, PartialEq, Eq)]
pub enum CoordinatorManagerError {
    /// The shared coordinator handle still has other holders; it cannot idle.
    OutstandingCoordinatorIdle,
    /// The backend failed while idling the coordinator.
    Idle { source: String },
    /// The shared coordinator handle still has other holders; it cannot be
    /// shut down.
    OutstandingCoordinatorShutdown,
    /// The backend failed while shutting the coordinator down.
    Shutdown { source: String },
}

impl CoordinatorManagerError {
    pub open spec fn spec_message(&self) -> Seq<char> {
        match self {
            CoordinatorManagerError::OutstandingCoordinatorIdle => {
                "The coordinator is still referenced and cannot be idled"@
            },
            CoordinatorManagerError::Idle { .. } => "Could not idle the coordinator"@,
            CoordinatorManagerError::OutstandingCoordinatorShutdown => {
                "The coordinator is still referenced and cannot be shut down"@
            },
            CoordinatorManagerError::Shutdown { .. } => "Could not shut down the coordinator"@,
        }
    }

    /// A human-readable diagnostic for this failure.
    pub fn message(&self) -> (m: String)
        ensures
            m@ == self.spec_message(),
    {
        match self {
            CoordinatorManagerError::OutstandingCoordinatorIdle => {
                String::from_str("The coordinator is still referenced and cannot be idled")
            },
            CoordinatorManagerError::Idle { .. } => {
                String::from_str("Could not idle the coordinator")
            },
            CoordinatorManagerError::OutstandingCoordinatorShutdown => {
                String::from_str("The coordinator is still referenced and cannot be shut down")
            },
            CoordinatorManagerError::Shutdown { .. } => {
                String::from_str("Could not shut down the coordinator")
            },
        }
    }
}

/// Application-level failures raised while serving a request.
#[derive(Debug, Clone, PartialEq, Eq)]
#[allow(inconsistent_fields)]
pub enum Error {
    /// The inbound request could not be deserialized.
    Deserialization { source: String },
    /// The available crates could not be enumerated.
    Crates { source: String },
    /// The available versions could not be enumerated.
    Versions { source: String },
    /// A required tool version was missing from the enumeration.
    MiriVersion,
    /// The coordinator could not be shut down.
    ShutdownCoordinator { source: String },
    /// The backend failed on an evaluate request.
    Evaluate { source: String },
    /// The backend failed on a compile request.
    Compile { source: String },
    /// The backend failed on an execute request.
    Execute { source: String },
    /// The backend failed on a format request.
    Format { source: String },
    /// The backend failed on a lint request.
    Clippy { source: String },
    /// The backend failed on an interpretation request.
    Miri { source: String },
    /// The backend failed on a macro expansion request.
    MacroExpansion { source: String },
    /// An execution session could not be started.
    Begin { source: String },
    /// An execution session could not be ended.
    End { source: String },
    /// The operation timed out.
    Timeout { source: String },
    /// Stdin could not be passed to the active execution.
    StreamingCoordinatorExecuteStdin { source: String },
    /// A coordinator task could not be scheduled.
    StreamingCoordinatorSpawn { source: CoordinatorManagerError },
    /// The classified response could not be delivered to the caller.
    ResultChannelFailed { text: String },
    /// A unit of work terminated abnormally.
    TaskPanic { text: String },
}

impl Error {
    pub open spec fn spec_message(&self) -> Seq<char> {
        match self {
            Error::Deserialization { source } => {
                "Unable to deserialize request: "@ + source@
            },
            Error::Crates { .. } => "Unable to find the available crates"@,
            Error::Versions { .. } => "Unable to find the available versions"@,
            Error::MiriVersion => "The Miri version was missing"@,
            Error::ShutdownCoordinator { .. } => "Unable to shutdown the coordinator"@,
            Error::Evaluate { .. } => "Unable to process the evaluate request"@,
            Error::Compile { .. } => "Unable to process the compile request"@,
            Error::Execute { .. } => "Unable to process the execute request"@,
            Error::Format { .. } => "Unable to process the format request"@,
            Error::Clippy { .. } => "Unable to process the Clippy request"@,
            Error::Miri { .. } => "Unable to process the Miri request"@,
            Error::MacroExpansion { .. } => "Unable to process the macro expansion request"@,
            Error::Begin { .. } => "Could not begin the execution session"@,
            Error::End { .. } => "Could not end the execution session"@,
            Error::Timeout { .. } => "The operation timed out"@,
            Error::StreamingCoordinatorExecuteStdin { .. } => {
                "Unable to pass stdin to the active execution"@
            },
            Error::StreamingCoordinatorSpawn { .. } => "Unable to spawn a coordinator task"@,
            Error::ResultChannelFailed { text } => {
                "Unable to send result through channel: "@ + text@
            },
            Error::TaskPanic { text } => "The worker panicked: "@ + text@,
        }
    }

    /// A human-readable diagnostic for this failure.
    pub fn message(&self) -> (m: String)
        ensures
            m@ == self.spec_message(),
    {
        match self {
            Error::Deserialization { source } => {
                let mut m = String::from_str("Unable to deserialize request: ");
                m.append(source.as_str());
                m
            },
            Error::Crates { .. } => String::from_str("Unable to find the available crates"),
            Error::Versions { .. } => String::from_str("Unable to find the available versions"),
            Error::MiriVersion => String::from_str("The Miri version was missing"),
            Error::ShutdownCoordinator { .. } => {
                String::from_str("Unable to shutdown the coordinator")
            },
            Error::Evaluate { .. } => String::from_str("Unable to process the evaluate request"),
            Error::Compile { .. } => String::from_str("Unable to process the compile request"),
            Error::Execute { .. } => String::from_str("Unable to process the execute request"),
            Error::Format { .. } => String::from_str("Unable to process the format request"),
            Error::Clippy { .. } => String::from_str("Unable to process the Clippy request"),
            Error::Miri { .. } => String::from_str("Unable to process the Miri request"),
            Error::MacroExpansion { .. } => {
                String::from_str("Unable to process the macro expansion request")
            },
            Error::Begin { .. } => String::from_str("Could not begin the execution session"),
            Error::End { .. } => String::from_str("Could not end the execution session"),
            Error::Timeout { .. } => String::from_str("The operation timed out"),
            Error::StreamingCoordinatorExecuteStdin { .. } => {
                String::from_str("Unable to pass stdin to the active execution")
            },
            Error::StreamingCoordinatorSpawn { .. } => {
                String::from_str("Unable to spawn a coordinator task")
            },
            Error::ResultChannelFailed { text } => {
                let mut m = String::from_str("Unable to send result through channel: ");
                m.append(text.as_str());
                m
            },
            Error::TaskPanic { text } => {
                let mut m = String::from_str("The worker panicked: ");
                m.append(text.as_str());
                m
            },
        }
    }
}

} // verus!
