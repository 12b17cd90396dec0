use tessera_render::command::DispatchEntry;
use tessera_render::pixel::{PxPosition, PxSize};
use tessera_render::registry::{DispatchError, Invocation, PipelineRegistry, RegistryError};

fn entry(kind: u64, w: u32, h: u32, x: i32, y: i32) -> DispatchEntry {
    DispatchEntry { kind, size: PxSize::new(w, h), pos: PxPosition::new(x, y) }
}

/// A headless pipeline that records each entry it is invoked with.
#[derive(Default)]
struct RecordingPipeline {
    invoked_with: Vec<DispatchEntry>,
}

#[test]
fn registration_assigns_sequential_identifiers() {
    let mut reg = PipelineRegistry::new();
    assert_eq!(reg.register(10, "text"), Ok(0));
    assert_eq!(reg.register(20, "shape"), Ok(1));
    assert_eq!(reg.register(30, "image"), Ok(2));
}

#[test]
fn duplicate_registration_is_a_configuration_error() {
    let mut reg = PipelineRegistry::new();
    assert_eq!(reg.register(10, "text"), Ok(0));
    assert_eq!(
        reg.register(10, "text again"),
        Err(RegistryError::DuplicateRegistration { kind: 10 })
    );
    // The failed registration left the registry unchanged.
    assert_eq!(reg.register(20, "shape"), Ok(1));
    assert_eq!(*reg.pipeline_mut(0), "text");
}

#[test]
fn dispatch_preserves_emission_order() {
    let mut reg = PipelineRegistry::new();
    let text_pipeline = reg.register(7, "text").unwrap();
    let shape_pipeline = reg.register(8, "shape").unwrap();

    let frame = vec![
        entry(8, 100, 40, 0, 0),
        entry(7, 60, 20, 10, 50),
        entry(8, 30, 30, 200, 5),
    ];
    let plan = reg.dispatch_frame(&frame).unwrap();

    assert_eq!(plan.len(), 3);
    // Exactly one invocation per command, in the input order, each resolved
    // to the pipeline registered for its command type.
    assert_eq!(plan[0], Invocation { pipeline: shape_pipeline, entry: frame[0] });
    assert_eq!(plan[1], Invocation { pipeline: text_pipeline, entry: frame[1] });
    assert_eq!(plan[2], Invocation { pipeline: shape_pipeline, entry: frame[2] });
}

#[test]
fn dispatch_invokes_one_pipeline_twice_in_order() {
    // Registering pipeline P for command type C, then dispatching [C_a, C_b],
    // invokes P twice: first with C_a's size and position, then with C_b's.
    let mut reg = PipelineRegistry::new();
    let p = reg.register(42, RecordingPipeline::default()).unwrap();

    let c_a = entry(42, 11, 12, 1, 2);
    let c_b = entry(42, 13, 14, 3, 4);
    let plan = reg.dispatch_frame(&vec![c_a, c_b]).unwrap();

    assert_eq!(plan.len(), 2);
    assert_eq!(plan[0].pipeline, p);
    assert_eq!(plan[1].pipeline, p);

    // Execute the plan as the renderer would: each invocation reaches the
    // owning pipeline instance, in plan order.
    for invocation in &plan {
        let pipeline = reg.pipeline_mut(invocation.pipeline);
        pipeline.invoked_with.push(invocation.entry);
    }
    let recorded = &reg.pipeline_mut(p).invoked_with;
    assert_eq!(recorded.as_slice(), &[c_a, c_b]);
}

#[test]
fn missing_pipeline_is_a_fatal_error_not_a_skip() {
    let mut reg = PipelineRegistry::new();
    reg.register(1, "text").unwrap();

    let frame = vec![entry(1, 5, 5, 0, 0), entry(99, 5, 5, 0, 0), entry(1, 5, 5, 0, 0)];
    let err = reg.dispatch_frame(&frame).unwrap_err();
    assert_eq!(err, DispatchError::MissingPipeline { index: 1, kind: 99 });
}

#[test]
fn empty_registry_rejects_any_command() {
    let reg = PipelineRegistry::<&str>::new();
    let err = reg.dispatch_frame(&vec![entry(5, 1, 1, 0, 0)]).unwrap_err();
    assert_eq!(err, DispatchError::MissingPipeline { index: 0, kind: 5 });
}

#[test]
fn empty_frame_dispatches_to_empty_plan() {
    let reg = PipelineRegistry::<&str>::new();
    let plan = reg.dispatch_frame(&vec![]).unwrap();
    assert!(plan.is_empty());
}

#[test]
fn pipeline_for_resolves_registered_kinds_only() {
    let mut reg = PipelineRegistry::new();
    reg.register(3, "text").unwrap();
    reg.register(4, "shape").unwrap();
    assert_eq!(reg.pipeline_for(3), Some(0));
    assert_eq!(reg.pipeline_for(4), Some(1));
    assert_eq!(reg.pipeline_for(5), None);
}
