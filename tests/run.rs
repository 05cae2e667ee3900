use threadgroup_dispatch::run::{step_at, STEP_COUNT};
use threadgroup_dispatch::{Action, BufferRole, Directive, Event, GridSize, Run, RunError, ShaderVariant};

/// The event that reports success of `a`, with `out` as the bytes read back.
fn success_of(a: Action, out: &[u8]) -> Event {
    match a {
        Action::ResolveDevice => Event::DeviceFound,
        Action::CompileLibrary { .. } => Event::Compiled,
        Action::GetFunction => Event::FunctionFound,
        Action::BuildPipeline { .. } => Event::PipelineBuilt,
        Action::ReadOutput => Event::OutputRead(out.to_vec()),
        _ => Event::Done,
    }
}

/// Drives a run to its end with every step succeeding; returns the actions
/// issued and the final directive.
fn drive(variant: ShaderVariant, out: &[u8]) -> (Vec<Action>, Directive) {
    let mut run = Run::new(variant);
    let mut actions = vec![run.pending()];
    loop {
        let event = success_of(*actions.last().unwrap(), out);
        assert!(run.accepts(&event));
        match run.advance(event) {
            Directive::Perform(a) => actions.push(a),
            other => return (actions, other),
        }
    }
}

fn line(n: u64) -> GridSize {
    GridSize { width: n, height: 1, depth: 1 }
}

#[test]
fn successful_run_issues_every_step_in_order() {
    let (actions, end) = drive(ShaderVariant::MemAsArg, &[10, 0, 0, 0]);
    assert_eq!(
        actions,
        vec![
            Action::ResolveDevice,
            Action::CompileLibrary { variant: ShaderVariant::MemAsArg },
            Action::GetFunction,
            Action::BuildPipeline { group_size_is_multiple_of_execution_width: true },
            Action::NewCommandQueue,
            Action::NewCommandBuffer,
            Action::NewComputeEncoder,
            Action::NewSharedBuffer { role: BufferRole::Flag, initial: 0 },
            Action::NewSharedBuffer { role: BufferRole::Output, initial: 0 },
            Action::SetPipelineState,
            Action::SetBuffer { index: 0, role: BufferRole::Flag, offset: 0 },
            Action::SetBuffer { index: 1, role: BufferRole::Output, offset: 0 },
            Action::SetThreadgroupMemoryLength { length: 4, index: 0 },
            Action::DispatchThreadGroups { groups: line(10), threads_per_group: line(96) },
            Action::EndEncoding,
            Action::Commit,
            Action::WaitUntilCompleted,
            Action::ReadOutput,
        ]
    );
    assert_eq!(actions.len(), STEP_COUNT);
    assert_eq!(end, Directive::Finish(10));
}

#[test]
fn variants_differ_only_in_compiled_source() {
    let (arg, end_arg) = drive(ShaderVariant::MemAsArg, &[7, 1, 0, 0]);
    let (local, end_local) = drive(ShaderVariant::MemAsLocal, &[7, 1, 0, 0]);
    assert_eq!(arg.len(), local.len());
    for i in 0..arg.len() {
        if i == 1 {
            assert_ne!(arg[i], local[i]);
        } else {
            assert_eq!(arg[i], local[i]);
        }
    }
    assert_eq!(local[1], Action::CompileLibrary { variant: ShaderVariant::MemAsLocal });
    assert_eq!(end_arg, Directive::Finish(263));
    assert_eq!(end_arg, end_local);
}

#[test]
fn same_events_give_same_run() {
    for v in [ShaderVariant::MemAsArg, ShaderVariant::MemAsLocal] {
        assert_eq!(drive(v, &[0, 0, 0, 0]), drive(v, &[0, 0, 0, 0]));
        assert_eq!(drive(v, &[0, 0, 0, 0]).1, Directive::Finish(0));
    }
}

#[test]
fn missing_device_aborts_before_compiling() {
    let mut run = Run::new(ShaderVariant::MemAsArg);
    assert_eq!(run.pending(), Action::ResolveDevice);
    assert!(run.accepts(&Event::NoDevice));
    assert_eq!(run.advance(Event::NoDevice), Directive::Abort(RunError::NoDevice));
    assert!(!run.accepts(&Event::DeviceFound));
    assert!(!run.accepts(&Event::Done));
    assert!(!run.accepts(&Event::Compiled));
}

#[test]
fn malformed_source_aborts_before_pipeline() {
    let mut run = Run::new(ShaderVariant::MemAsLocal);
    assert_eq!(
        run.advance(Event::DeviceFound),
        Directive::Perform(Action::CompileLibrary { variant: ShaderVariant::MemAsLocal })
    );
    let d = run.advance(Event::CompileFailed("syntax error".to_string()));
    assert_eq!(d, Directive::Abort(RunError::Compile("syntax error".to_string())));
    assert!(!run.accepts(&Event::Compiled));
    assert!(!run.accepts(&Event::PipelineBuilt));
}

#[test]
fn missing_entry_point_aborts() {
    let mut run = Run::new(ShaderVariant::MemAsArg);
    run.advance(Event::DeviceFound);
    assert_eq!(run.advance(Event::Compiled), Directive::Perform(Action::GetFunction));
    let d = run.advance(Event::FunctionMissing("no entry_point".to_string()));
    assert_eq!(d, Directive::Abort(RunError::EntryPointNotFound("no entry_point".to_string())));
    assert!(!run.accepts(&Event::FunctionFound));
}

#[test]
fn pipeline_failure_aborts() {
    let mut run = Run::new(ShaderVariant::MemAsArg);
    run.advance(Event::DeviceFound);
    run.advance(Event::Compiled);
    assert_eq!(
        run.advance(Event::FunctionFound),
        Directive::Perform(Action::BuildPipeline { group_size_is_multiple_of_execution_width: true })
    );
    let d = run.advance(Event::PipelineFailed("limits".to_string()));
    assert_eq!(d, Directive::Abort(RunError::PipelineCreation("limits".to_string())));
}

#[test]
fn short_readback_is_an_execution_error() {
    let (_, end) = drive(ShaderVariant::MemAsArg, &[1, 2]);
    assert_eq!(end, Directive::Abort(RunError::Execution));
}

#[test]
fn mismatched_event_is_not_accepted() {
    let run = Run::new(ShaderVariant::MemAsArg);
    assert!(!run.accepts(&Event::Compiled));
    assert!(!run.accepts(&Event::Done));
    assert!(!run.accepts(&Event::CompileFailed(String::new())));
    let stale = Run { variant: ShaderVariant::MemAsArg, position: STEP_COUNT, finished: false };
    assert!(!stale.accepts(&Event::Done));
}

#[test]
fn steps_can_be_looked_up_by_position() {
    assert_eq!(step_at(ShaderVariant::MemAsLocal, 0), Action::ResolveDevice);
    assert_eq!(
        step_at(ShaderVariant::MemAsLocal, 12),
        Action::SetThreadgroupMemoryLength { length: 4, index: 0 }
    );
    assert_eq!(step_at(ShaderVariant::MemAsArg, STEP_COUNT - 1), Action::ReadOutput);
}
