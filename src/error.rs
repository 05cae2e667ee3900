//! Why a run stopped before it could report a value.

use vstd::prelude::*;

verus! {

/// The ways a run can fail. None is retried: each ends the run.
#[derive(Clone, Debug, PartialEq, Eq)]
pub enum RunError {
    /// No compute device is available.
    NoDevice,
    /// The kernel source did not compile; the compiler's message.
    Compile(String),
    /// The compiled library has no function named `entry_point`; the message.
    EntryPointNotFound(String),
    /// The pipeline state could not be created; the message.
    PipelineCreation(String),
    /// The device finished but the output region could not be read as one word.
    Execution,
}

/// The phase that failed, in words, for each error.
pub open spec fn error_context(e: RunError) -> Seq<char> {
    match e {
        RunError::NoDevice => "No device found"@,
        RunError::Compile(_) => "failed to compile shader"@,
        RunError::EntryPointNotFound(_) => "failed to find entry point"@,
        RunError::PipelineCreation(_) => "failed to create compute pipeline state"@,
        RunError::Execution => "failed to read the output buffer"@,
    }
}

impl RunError {
    /// Names the setup phase that failed.
    pub fn context(&self) -> (r: &'static str)
        ensures
            r@ == error_context(*self),
    {
        match self {
            RunError::NoDevice => "No device found",
            RunError::Compile(_) => "failed to compile shader",
            RunError::EntryPointNotFound(_) => "failed to find entry point",
            RunError::PipelineCreation(_) => "failed to create compute pipeline state",
            RunError::Execution => "failed to read the output buffer",
        }
    }

    /// The message that came with the failure, where there was one.
    pub fn detail(&self) -> (r: Option<String>)
        ensures
            r == match *self {
                RunError::Compile(m) => Some(m),
                RunError::EntryPointNotFound(m) => Some(m),
                RunError::PipelineCreation(m) => Some(m),
                _ => None::<String>,
            },
    {
        match self {
            RunError::Compile(m) => Some(m.clone()),
            RunError::EntryPointNotFound(m) => Some(m.clone()),
            RunError::PipelineCreation(m) => Some(m.clone()),
            _ => None,
        }
    }
}

} // verus!
