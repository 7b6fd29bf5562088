//! The bridge to the external interpreter.
//!
//! The interpreter runs a support script in a process of its own. This
//! module says what is handed to that process and how its end is read; the
//! caller starts the process and reports how it went as a [`BridgeEvent`].
use vstd::prelude::*;

verus! {

/// The support script that the interpreter runs.
pub const RUNNER_SCRIPT: &'static str = "./resources/py_env/interp_runner.py";

/// The options that are handed over while there are none to hand over.
pub const PLACEHOLDER_OPTIONS: &'static str = "{\"this\": []}";

/// A request to the interpreter.
#[derive(Clone, Debug, PartialEq, Eq)]
pub struct BridgeInvocation {
    /// Where the script is.
    pub script: String,
    /// Where the script looks for its resources.
    pub resource_path: String,
    /// The options, serialised.
    pub options: String,
}

/// How the interpreter's process went.
#[derive(Clone, Debug, PartialEq, Eq)]
pub enum BridgeEvent {
    /// The process could not be started.
    SpawnFailed(String),
    /// The process was started, and its output could not be collected.
    CaptureFailed(String),
    /// The process has ended.
    Exited { success: bool, stdout: Vec<u8>, stderr: Vec<u8> },
}

/// What a process that has ended leaves: its two output streams, and whether
/// it reported success.
#[derive(Clone, Debug, PartialEq, Eq)]
pub struct BridgeResult {
    pub stdout: Vec<u8>,
    pub stderr: Vec<u8>,
    pub success: bool,
}

/// A failure of the bridge itself.
#[derive(Clone, Debug, PartialEq, Eq)]
pub enum BridgeError {
    /// The process could not be started.
    Spawn(String),
    /// The output of the process could not be collected.
    Io(String),
}

/// How an event is read, over the contents of its texts and streams.
pub enum Conclusion {
    SpawnError(Seq<char>),
    IoError(Seq<char>),
    Ended { success: bool, stdout: Seq<u8>, stderr: Seq<u8> },
}

/// How the given event is read.
pub open spec fn conclusion_of(event: BridgeEvent) -> Conclusion {
    match event {
        BridgeEvent::SpawnFailed(reason) => Conclusion::SpawnError(reason@),
        BridgeEvent::CaptureFailed(reason) => Conclusion::IoError(reason@),
        BridgeEvent::Exited { success, stdout, stderr } => Conclusion::Ended {
            success,
            stdout: stdout@,
            stderr: stderr@,
        },
    }
}

/// What an answer of the bridge says, over the contents of its texts and
/// streams.
pub open spec fn answer_of(answer: Result<BridgeResult, BridgeError>) -> Conclusion {
    match answer {
        Ok(result) => Conclusion::Ended {
            success: result.success,
            stdout: result.stdout@,
            stderr: result.stderr@,
        },
        Err(BridgeError::Spawn(reason)) => Conclusion::SpawnError(reason@),
        Err(BridgeError::Io(reason)) => Conclusion::IoError(reason@),
    }
}

impl BridgeInvocation {
    /// The request that runs the support script with the placeholder
    /// options.
    pub fn interp_runner(resource_path: String) -> (invocation: BridgeInvocation)
        ensures
            invocation.script@ == RUNNER_SCRIPT@,
            invocation.resource_path@ == resource_path@,
            invocation.options@ == PLACEHOLDER_OPTIONS@,
    {
        BridgeInvocation {
            script: RUNNER_SCRIPT.to_owned(),
            resource_path,
            options: PLACEHOLDER_OPTIONS.to_owned(),
        }
    }

    /// What the interpreter is started with: the script, then the resource
    /// path, then the options.
    pub fn command_line(&self) -> (line: Vec<String>)
        ensures
            line@.len() == 3,
            line@[0]@ == self.script@,
            line@[1]@ == self.resource_path@,
            line@[2]@ == self.options@,
    {
        let mut line: Vec<String> = Vec::new();
        line.push(self.script.clone());
        line.push(self.resource_path.clone());
        line.push(self.options.clone());
        line
    }
}

impl BridgeResult {
    /// Whether the process ran and reported a failure of its own. Such a
    /// failure is no error of the bridge: what the process wrote stands in
    /// `stderr`, for the caller to read.
    pub fn is_delegated_failure(&self) -> (failed: bool)
        ensures
            failed == !self.success,
    {
        !self.success
    }
}

/// Reads how the interpreter's process went. A process that could not be
/// started is a spawn error, one whose output could not be collected an I/O
/// error. A process that has ended is no error of the bridge, whether or not
/// it reported success: its streams and its status are handed on as they
/// are.
pub fn conclude(event: BridgeEvent) -> (answer: Result<BridgeResult, BridgeError>)
    ensures
        answer_of(answer) == conclusion_of(event),
{
    match event {
        BridgeEvent::SpawnFailed(reason) => Err(BridgeError::Spawn(reason)),
        BridgeEvent::CaptureFailed(reason) => Err(BridgeError::Io(reason)),
        BridgeEvent::Exited { success, stdout, stderr } => Ok(
            BridgeResult { stdout, stderr, success },
        ),
    }
}

} // verus!
