use gpu_dispatch::device::{acquire_context, PowerPreference, Usage};
use gpu_dispatch::dispatch::{dispatch, record_compute_pass, CommandOp};
use gpu_dispatch::error::GpuError;
use gpu_dispatch::grid::compute_work_group_count;
use gpu_dispatch::pipeline::{build_binding_set, build_pipeline, BindingKind};

fn context() -> (gpu_dispatch::device::Device, gpu_dispatch::dispatch::Queue) {
    acquire_context(PowerPreference::HighPerformance, true, true).unwrap()
}

#[test]
fn shader_compile_failure_carries_the_diagnostic() {
    let diagnostic = "unknown entry point".to_string();
    let r = build_pipeline(Some(diagnostic.clone()), vec![BindingKind::ReadableImage], 16, 16);
    assert_eq!(r.err().unwrap(), GpuError::ShaderCompilation(diagnostic));
}

#[test]
fn wrong_resource_count_is_rejected() {
    let (mut device, _queue) = context();
    let input = device.create_image_resource(2, 2, Usage::input(), true).unwrap();
    let pipeline = build_pipeline(
        None,
        vec![BindingKind::ReadableImage, BindingKind::WritableImage],
        16,
        16,
    )
    .unwrap();
    let r = build_binding_set(&device, &pipeline, &vec![input]);
    assert_eq!(r.err().unwrap(), GpuError::BindingLayoutMismatch);
}

#[test]
fn wrong_resource_kind_is_rejected() {
    let (mut device, _queue) = context();
    let output = device.create_image_resource(2, 2, Usage::output(), true).unwrap();
    let pipeline = build_pipeline(None, vec![BindingKind::ReadableImage], 16, 16).unwrap();
    // a readable slot cannot take a resource that is only shader-writable
    let r = build_binding_set(&device, &pipeline, &vec![output]);
    assert_eq!(r.err().unwrap(), GpuError::BindingLayoutMismatch);
}

#[test]
fn recorded_pass_has_the_documented_order() {
    let (mut device, _queue) = context();
    let input = device.create_image_resource(2, 2, Usage::input(), true).unwrap();
    let output = device.create_image_resource(2, 2, Usage::output(), true).unwrap();
    let pipeline = build_pipeline(
        None,
        vec![BindingKind::ReadableImage, BindingKind::WritableImage],
        16,
        16,
    )
    .unwrap();
    let bindings = build_binding_set(&device, &pipeline, &vec![input, output]).unwrap();
    let commands = record_compute_pass(&pipeline, &bindings, (1, 1));
    assert_eq!(
        commands.operations(),
        &vec![
            CommandOp::BeginComputePass,
            CommandOp::SetPipeline,
            CommandOp::SetBindGroup(0),
            CommandOp::Dispatch(1, 1, 1),
            CommandOp::EndComputePass,
        ]
    );
}

#[test]
fn matching_dispatch_submits_once() {
    let (mut device, mut queue) = context();
    let input = device.create_image_resource(2, 2, Usage::input(), true).unwrap();
    let output = device.create_image_resource(2, 2, Usage::output(), true).unwrap();
    let pipeline = build_pipeline(
        None,
        vec![BindingKind::ReadableImage, BindingKind::WritableImage],
        16,
        16,
    )
    .unwrap();
    let bindings = build_binding_set(&device, &pipeline, &vec![input, output]).unwrap();
    let grid = compute_work_group_count((2, 2), (16, 16));
    assert_eq!(grid, (1, 1));
    dispatch(&mut queue, &pipeline, &bindings, grid).unwrap();
    assert_eq!(queue.submission_count(), 1);
}

#[test]
fn one_slot_shader_fails_before_any_submission() {
    // a pipeline whose shader declares a single binding, given both resources
    let (mut device, queue) = context();
    let input = device.create_image_resource(2, 2, Usage::input(), true).unwrap();
    let output = device.create_image_resource(2, 2, Usage::output(), true).unwrap();
    let pipeline = build_pipeline(None, vec![BindingKind::ReadableImage], 16, 16).unwrap();
    let r = build_binding_set(&device, &pipeline, &vec![input, output]);
    assert_eq!(r.err().unwrap(), GpuError::BindingLayoutMismatch);
    assert_eq!(queue.submission_count(), 0);
}

#[test]
fn binding_set_for_another_pipeline_is_rejected() {
    let (mut device, mut queue) = context();
    let input = device.create_image_resource(2, 2, Usage::input(), true).unwrap();
    let output = device.create_image_resource(2, 2, Usage::output(), true).unwrap();
    let narrow = build_pipeline(None, vec![BindingKind::ReadableImage], 16, 16).unwrap();
    let full = build_pipeline(
        None,
        vec![BindingKind::ReadableImage, BindingKind::WritableImage],
        16,
        16,
    )
    .unwrap();
    let bindings = build_binding_set(&device, &narrow, &vec![input]).unwrap();
    let r = dispatch(&mut queue, &full, &bindings, (1, 1));
    assert_eq!(r.err().unwrap(), GpuError::BindingLayoutMismatch);
    assert_eq!(queue.submission_count(), 0);
    let _ = output;
}
