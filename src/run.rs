//! The decisions of one run, as a state machine. The caller performs each
//! `Action` on the device and hands back the `Event` it produced; the machine
//! answers with the next thing to do. A run resolves the device, compiles the
//! kernel, looks up `entry_point`, builds the pipeline, allocates the two
//! shared words, encodes one dispatch, submits it, waits, and reads the output.

use vstd::prelude::*;
use crate::error::RunError;
use crate::shader::ShaderVariant;
use crate::word::{decode_word, word_of_le_bytes, WORD_BYTES};

verus! {

/// Argument index of the flag buffer.
pub const FLAG_INDEX: u64 = 0;

/// Argument index of the output buffer.
pub const OUTPUT_INDEX: u64 = 1;

/// Threadgroup memory index of the scratch word.
pub const SCRATCH_INDEX: u64 = 0;

/// Byte length of the threadgroup scratch memory: one 32-bit word.
pub const SCRATCH_LENGTH: u64 = 4;

/// Number of thread groups along the first axis.
pub const GROUP_COUNT: u64 = 10;

/// Threads per group along the first axis.
pub const THREADS_PER_GROUP: u64 = 96;

/// The word that both shared buffers start from.
pub const INITIAL_WORD: u32 = 0;

/// Number of steps in a run.
pub const STEP_COUNT: usize = 18;

/// Extent of a grid or of a thread group, in three dimensions.
#[derive(Clone, Copy, Debug, PartialEq, Eq, Structural)]
pub struct GridSize {
    pub width: u64,
    pub height: u64,
    pub depth: u64,
}

/// The two shared buffers of a run.
#[derive(Clone, Copy, Debug, PartialEq, Eq, Structural)]
pub enum BufferRole {
    /// Input word read by the kernel.
    Flag,
    /// Word the kernel writes and the host reads back.
    Output,
}

/// One step of a run, to be carried out on the device.
#[derive(Clone, Copy, Debug, PartialEq, Eq, Structural)]
pub enum Action {
    /// Obtain the default compute device.
    ResolveDevice,
    /// Compile the source of `variant` with default options.
    CompileLibrary { variant: ShaderVariant },
    /// Look up the function named `entry_point`, with no constants.
    GetFunction,
    /// Build the compute pipeline state from the function.
    BuildPipeline { group_size_is_multiple_of_execution_width: bool },
    /// Create the command queue.
    NewCommandQueue,
    /// Create the command buffer on the queue.
    NewCommandBuffer,
    /// Open a compute encoder on the command buffer.
    NewComputeEncoder,
    /// Allocate a shared-storage buffer holding the bytes of `initial`.
    NewSharedBuffer { role: BufferRole, initial: u32 },
    /// Bind the pipeline state to the encoder.
    SetPipelineState,
    /// Bind a buffer at an argument index and byte offset.
    SetBuffer { index: u64, role: BufferRole, offset: u64 },
    /// Request threadgroup memory: `length` bytes at threadgroup index `index`.
    SetThreadgroupMemoryLength { length: u64, index: u64 },
    /// Dispatch `groups` thread groups of `threads_per_group` threads each.
    DispatchThreadGroups { groups: GridSize, threads_per_group: GridSize },
    /// Close the encoder.
    EndEncoding,
    /// Submit the command buffer.
    Commit,
    /// Block until the device has finished the command buffer.
    WaitUntilCompleted,
    /// Copy the bytes of the output buffer back to the host.
    ReadOutput,
}

/// What came of the last action.
#[derive(Clone, Debug, PartialEq, Eq)]
pub enum Event {
    DeviceFound,
    NoDevice,
    Compiled,
    CompileFailed(String),
    FunctionFound,
    FunctionMissing(String),
    PipelineBuilt,
    PipelineFailed(String),
    /// An action that cannot fail was carried out.
    Done,
    /// The bytes read from the output buffer.
    OutputRead(Vec<u8>),
}

/// What the caller is to do next.
#[derive(Clone, Debug, PartialEq, Eq)]
pub enum Directive {
    /// Carry out this action and report its event.
    Perform(Action),
    /// The run is over; report this output word.
    Finish(u32),
    /// The run is over; it failed.
    Abort(RunError),
}

/// The state of a run: the variant it compiles, the step it waits on, and
/// whether it has ended.
#[derive(Clone, Copy, Debug, PartialEq, Eq, Structural)]
pub struct Run {
    pub variant: ShaderVariant,
    pub position: usize,
    pub finished: bool,
}

/// A one-dimensional extent along the first axis.
pub open spec fn line_of(n: u64) -> GridSize {
    GridSize { width: n, height: 1, depth: 1 }
}

/// Step `i` of a run of `variant`.
pub open spec fn step_of(variant: ShaderVariant, i: int) -> Action {
    if i == 0 {
        Action::ResolveDevice
    } else if i == 1 {
        Action::CompileLibrary { variant }
    } else if i == 2 {
        Action::GetFunction
    } else if i == 3 {
        Action::BuildPipeline { group_size_is_multiple_of_execution_width: true }
    } else if i == 4 {
        Action::NewCommandQueue
    } else if i == 5 {
        Action::NewCommandBuffer
    } else if i == 6 {
        Action::NewComputeEncoder
    } else if i == 7 {
        Action::NewSharedBuffer { role: BufferRole::Flag, initial: INITIAL_WORD }
    } else if i == 8 {
        Action::NewSharedBuffer { role: BufferRole::Output, initial: INITIAL_WORD }
    } else if i == 9 {
        Action::SetPipelineState
    } else if i == 10 {
        Action::SetBuffer { index: FLAG_INDEX, role: BufferRole::Flag, offset: 0 }
    } else if i == 11 {
        Action::SetBuffer { index: OUTPUT_INDEX, role: BufferRole::Output, offset: 0 }
    } else if i == 12 {
        Action::SetThreadgroupMemoryLength { length: SCRATCH_LENGTH, index: SCRATCH_INDEX }
    } else if i == 13 {
        Action::DispatchThreadGroups {
            groups: line_of(GROUP_COUNT),
            threads_per_group: line_of(THREADS_PER_GROUP),
        }
    } else if i == 14 {
        Action::EndEncoding
    } else if i == 15 {
        Action::Commit
    } else if i == 16 {
        Action::WaitUntilCompleted
    } else {
        Action::ReadOutput
    }
}

/// The whole list of steps of a run of `variant`.
pub open spec fn script(variant: ShaderVariant) -> Seq<Action> {
    Seq::new(STEP_COUNT as nat, |i: int| step_of(variant, i))
}

/// Whether `e` reports that `a` succeeded.
pub open spec fn succeeded(a: Action, e: Event) -> bool {
    match a {
        Action::ResolveDevice => e is DeviceFound,
        Action::CompileLibrary { .. } => e is Compiled,
        Action::GetFunction => e is FunctionFound,
        Action::BuildPipeline { .. } => e is PipelineBuilt,
        Action::ReadOutput => e is OutputRead,
        _ => e is Done,
    }
}

/// Whether `e` reports that `a` failed.
pub open spec fn failed(a: Action, e: Event) -> bool {
    match a {
        Action::ResolveDevice => e is NoDevice,
        Action::CompileLibrary { .. } => e is CompileFailed,
        Action::GetFunction => e is FunctionMissing,
        Action::BuildPipeline { .. } => e is PipelineFailed,
        _ => false,
    }
}

/// The error that a failure event stands for.
pub open spec fn error_of(e: Event) -> RunError {
    match e {
        Event::CompileFailed(m) => RunError::Compile(m),
        Event::FunctionMissing(m) => RunError::EntryPointNotFound(m),
        Event::PipelineFailed(m) => RunError::PipelineCreation(m),
        _ => RunError::NoDevice,
    }
}

/// The state in which a run of `variant` begins.
pub open spec fn initial(variant: ShaderVariant) -> Run {
    Run { variant, position: 0, finished: false }
}

impl Run {
    /// The position names a step.
    pub open spec fn wf(self) -> bool {
        self.position < STEP_COUNT
    }

    /// The step the run is waiting on.
    pub open spec fn awaited(self) -> Action {
        step_of(self.variant, self.position as int)
    }

    /// Whether the run is still going and `e` is an outcome of the awaited step.
    pub open spec fn accepts_spec(self, e: Event) -> bool {
        &&& self.wf()
        &&& !self.finished
        &&& (succeeded(self.awaited(), e) || failed(self.awaited(), e))
    }

    /// The state after `e`, and what to do next.
    pub open spec fn next(self, e: Event) -> (Run, Directive) {
        let done = Run { finished: true, ..self };
        if failed(self.awaited(), e) {
            (done, Directive::Abort(error_of(e)))
        } else if self.position + 1 < STEP_COUNT {
            let moved = Run { position: (self.position + 1) as usize, ..self };
            (moved, Directive::Perform(moved.awaited()))
        } else {
            match e {
                Event::OutputRead(b) => if b@.len() == WORD_BYTES {
                    (done, Directive::Finish(word_of_le_bytes(b@)))
                } else {
                    (done, Directive::Abort(RunError::Execution))
                },
                _ => (done, Directive::Abort(RunError::Execution)),
            }
        }
    }
}

/// Whether `a` is recorded into the compute encoder.
pub open spec fn is_encoder_command(a: Action) -> bool {
    ||| a is SetPipelineState
    ||| a is SetBuffer
    ||| a is SetThreadgroupMemoryLength
    ||| a is DispatchThreadGroups
}

/// A run without a device stops at once: the missing device aborts it with
/// `NoDevice`, nothing further is accepted, and the compiler is only ever
/// asked for once a device was found.
pub proof fn lemma_no_device_stops_before_any_work(s: Run, e: Event)
    requires
        s.accepts_spec(e),
    ensures
        s.position == 0 && e is NoDevice ==> {
            &&& s.next(e).1 == Directive::Abort(RunError::NoDevice)
            &&& forall|e2: Event| !s.next(e).0.accepts_spec(e2)
        },
        s.next(e).1 matches Directive::Perform(Action::CompileLibrary { .. }) ==> {
            &&& s.awaited() is ResolveDevice
            &&& e is DeviceFound
        },
{
}

/// A source that does not compile aborts the run with `Compile`, carrying the
/// compiler's message, and the pipeline is only built once the entry point
/// was found in a compiled library.
pub proof fn lemma_compile_failure_stops_before_pipeline(s: Run, e: Event)
    requires
        s.accepts_spec(e),
    ensures
        s.awaited() is CompileLibrary && e is CompileFailed ==> {
            &&& s.next(e).1 == Directive::Abort(RunError::Compile(e->CompileFailed_0))
            &&& forall|e2: Event| !s.next(e).0.accepts_spec(e2)
        },
        s.next(e).1 matches Directive::Perform(Action::BuildPipeline { .. }) ==> {
            &&& s.awaited() is GetFunction
            &&& e is FunctionFound
        },
        s.next(e).1 matches Directive::Perform(Action::GetFunction) ==> {
            &&& s.awaited() is CompileLibrary
            &&& e is Compiled
        },
{
}

/// A library without `entry_point` aborts the run with `EntryPointNotFound`.
pub proof fn lemma_missing_entry_point_aborts(s: Run, e: Event)
    requires
        s.accepts_spec(e),
        s.awaited() is GetFunction,
        e is FunctionMissing,
    ensures
        s.next(e).1 == Directive::Abort(RunError::EntryPointNotFound(e->FunctionMissing_0)),
        forall|e2: Event| !s.next(e).0.accepts_spec(e2),
{
}

/// The two variants run the same steps but for the source they compile: in
/// particular the same four-byte scratch word at threadgroup index 0 and the
/// same dispatch of 10 groups of 96 threads.
pub proof fn lemma_variants_share_dispatch(v1: ShaderVariant, v2: ShaderVariant)
    ensures
        forall|i: int| 0 <= i < STEP_COUNT && i != 1 ==> step_of(v1, i) == step_of(v2, i),
        script(v1)[1] == (Action::CompileLibrary { variant: v1 }),
        script(v2)[1] == (Action::CompileLibrary { variant: v2 }),
        script(v1)[12] == (Action::SetThreadgroupMemoryLength { length: 4, index: 0 }),
        script(v1)[13] == (Action::DispatchThreadGroups {
            groups: GridSize { width: 10, height: 1, depth: 1 },
            threads_per_group: GridSize { width: 96, height: 1, depth: 1 },
        }),
{
}

/// Every run follows one order: the two shared buffers are allocated from the
/// word 0 before any binding; everything recorded into the encoder comes after
/// it is opened and before it is closed; the command buffer is submitted once,
/// after the encoder is closed, then waited on once, then read once; and there
/// is a single pipeline and a single dispatch.
pub proof fn lemma_single_ordered_pass(v: ShaderVariant)
    ensures
        script(v)[6] == Action::NewComputeEncoder,
        script(v)[14] == Action::EndEncoding,
        script(v)[15] == Action::Commit,
        script(v)[16] == Action::WaitUntilCompleted,
        script(v)[17] == Action::ReadOutput,
        forall|i: int| 0 <= i < STEP_COUNT && is_encoder_command(#[trigger] step_of(v, i)) ==> 6 < i < 14,
        forall|i: int| 0 <= i < STEP_COUNT && #[trigger] step_of(v, i) is NewSharedBuffer ==> {
            &&& i < 9
            &&& step_of(v, i)->NewSharedBuffer_initial == INITIAL_WORD
        },
        forall|i: int, j: int| 0 <= i < STEP_COUNT && 0 <= j < STEP_COUNT
            && #[trigger] step_of(v, i) is DispatchThreadGroups
            && #[trigger] step_of(v, j) is DispatchThreadGroups ==> i == j,
        forall|i: int, j: int| 0 <= i < STEP_COUNT && 0 <= j < STEP_COUNT
            && #[trigger] step_of(v, i) is BuildPipeline
            && #[trigger] step_of(v, j) is BuildPipeline ==> i == j,
        forall|i: int| 0 <= i < STEP_COUNT && (#[trigger] step_of(v, i) is Commit
            || step_of(v, i) is WaitUntilCompleted || step_of(v, i) is ReadOutput) ==> i >= 15,
{
}

/// Step `i` of a run of `variant`.
pub fn step_at(variant: ShaderVariant, i: usize) -> (r: Action)
    requires
        i < STEP_COUNT,
    ensures
        r == step_of(variant, i as int),
{
    let line = |n: u64| -> (g: GridSize)
        ensures
            g == line_of(n),
        { GridSize { width: n, height: 1, depth: 1 } };
    match i {
        0 => Action::ResolveDevice,
        1 => Action::CompileLibrary { variant },
        2 => Action::GetFunction,
        3 => Action::BuildPipeline { group_size_is_multiple_of_execution_width: true },
        4 => Action::NewCommandQueue,
        5 => Action::NewCommandBuffer,
        6 => Action::NewComputeEncoder,
        7 => Action::NewSharedBuffer { role: BufferRole::Flag, initial: INITIAL_WORD },
        8 => Action::NewSharedBuffer { role: BufferRole::Output, initial: INITIAL_WORD },
        9 => Action::SetPipelineState,
        10 => Action::SetBuffer { index: FLAG_INDEX, role: BufferRole::Flag, offset: 0 },
        11 => Action::SetBuffer { index: OUTPUT_INDEX, role: BufferRole::Output, offset: 0 },
        12 => Action::SetThreadgroupMemoryLength { length: SCRATCH_LENGTH, index: SCRATCH_INDEX },
        13 => Action::DispatchThreadGroups {
            groups: line(GROUP_COUNT),
            threads_per_group: line(THREADS_PER_GROUP),
        },
        14 => Action::EndEncoding,
        15 => Action::Commit,
        16 => Action::WaitUntilCompleted,
        _ => Action::ReadOutput,
    }
}

/// Whether `e` reports that `a` succeeded.
pub fn is_success(a: Action, e: &Event) -> (r: bool)
    ensures
        r == succeeded(a, *e),
{
    match a {
        Action::ResolveDevice => matches!(e, Event::DeviceFound),
        Action::CompileLibrary { .. } => matches!(e, Event::Compiled),
        Action::GetFunction => matches!(e, Event::FunctionFound),
        Action::BuildPipeline { .. } => matches!(e, Event::PipelineBuilt),
        Action::ReadOutput => matches!(e, Event::OutputRead(_)),
        _ => matches!(e, Event::Done),
    }
}

/// Whether `e` reports that `a` failed.
pub fn is_failure(a: Action, e: &Event) -> (r: bool)
    ensures
        r == failed(a, *e),
{
    match a {
        Action::ResolveDevice => matches!(e, Event::NoDevice),
        Action::CompileLibrary { .. } => matches!(e, Event::CompileFailed(_)),
        Action::GetFunction => matches!(e, Event::FunctionMissing(_)),
        Action::BuildPipeline { .. } => matches!(e, Event::PipelineFailed(_)),
        _ => false,
    }
}

impl Run {
    /// A run of `variant` that has not started: it waits on resolving the device.
    pub fn new(variant: ShaderVariant) -> (r: Run)
        ensures
            r == initial(variant),
            r.wf(),
            r.awaited() == Action::ResolveDevice,
    {
        Run { variant, position: 0, finished: false }
    }

    /// The step the run is waiting on.
    pub fn pending(&self) -> (r: Action)
        requires
            self.wf(),
        ensures
            r == self.awaited(),
    {
        step_at(self.variant, self.position)
    }

    /// Whether the run is still going and `e` is an outcome of the awaited step.
    pub fn accepts(&self, e: &Event) -> (r: bool)
        ensures
            r == self.accepts_spec(*e),
    {
        if self.finished || self.position >= STEP_COUNT {
            return false;
        }
        let a = step_at(self.variant, self.position);
        is_success(a, e) || is_failure(a, e)
    }

    /// Takes the outcome of the awaited step and says what to do next.
    pub fn advance(&mut self, e: Event) -> (d: Directive)
        requires
            old(self).accepts_spec(e),
        ensures
            (*final(self), d) == old(self).next(e),
            final(self).wf(),
    {
        let a = step_at(self.variant, self.position);
        if is_failure(a, &e) {
            self.finished = true;
            let err = match e {
                Event::CompileFailed(m) => RunError::Compile(m),
                Event::FunctionMissing(m) => RunError::EntryPointNotFound(m),
                Event::PipelineFailed(m) => RunError::PipelineCreation(m),
                _ => RunError::NoDevice,
            };
            return Directive::Abort(err);
        }
        if self.position + 1 < STEP_COUNT {
            self.position = self.position + 1;
            return Directive::Perform(step_at(self.variant, self.position));
        }
        self.finished = true;
        match e {
            Event::OutputRead(b) => match decode_word(b.as_slice()) {
                Some(w) => Directive::Finish(w),
                None => Directive::Abort(RunError::Execution),
            },
            _ => Directive::Abort(RunError::Execution),
        }
    }
}

} // verus!
