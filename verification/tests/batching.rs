use ttce_wgpu_rust_core::compute_shader::{
    IrAddressSpace, IrEntryPoint, IrGlobalVariable, IrResourceBinding, IrTypeShape, ShaderIrModule,
};
use ttce_wgpu_rust_core::tex_trans_core_engine::{TTCommand, TexTransCoreEngineDevice};

fn minimal_module() -> ShaderIrModule {
    ShaderIrModule {
        global_variables: vec![IrGlobalVariable {
            name: Some(String::from("gv")),
            binding: Some(IrResourceBinding { group: 0, binding: 0 }),
            space: IrAddressSpace::Uniform,
            ty: IrTypeShape::Struct,
        }],
        entry_points: vec![IrEntryPoint {
            workgroup_size_x: 8,
            workgroup_size_y: 8,
            workgroup_size_z: 1,
        }],
    }
}

#[test]
fn dispatches_below_threshold_never_flush() {
    let mut device = TexTransCoreEngineDevice::new();
    let mut ir = minimal_module();
    let id = device.register_compute_shader(&mut ir);
    let mut ctx = device.create_ctx();
    let handler = ctx.get_compute_handler(&device, &id).unwrap();

    for _ in 0..16 {
        let (_, flushed) = handler.dispatch(&mut ctx, &device, 1, 1, 1);
        assert!(flushed.is_none());
    }
    assert_eq!(ctx.command_stack_count, 16);
    assert_eq!(ctx.command_encoder.as_ref().unwrap().len(), 16);
}

#[test]
fn dispatch_beyond_threshold_flushes_exactly_once() {
    let mut device = TexTransCoreEngineDevice::new();
    let mut ir = minimal_module();
    let id = device.register_compute_shader(&mut ir);
    let mut ctx = device.create_ctx();
    let handler = ctx.get_compute_handler(&device, &id).unwrap();

    let mut flush_count = 0;
    for _ in 0..17 {
        if handler.dispatch(&mut ctx, &device, 1, 1, 1).1.is_some() {
            flush_count += 1;
        }
    }
    assert_eq!(flush_count, 1);
    assert_eq!(ctx.command_stack_count, 0);
    assert!(ctx.command_encoder.is_none());
}

#[test]
fn flushed_batch_holds_all_recorded_commands() {
    let mut device = TexTransCoreEngineDevice::new();
    let mut ir = minimal_module();
    let id = device.register_compute_shader(&mut ir);
    let mut ctx = device.create_ctx();
    let handler = ctx.get_compute_handler(&device, &id).unwrap();

    let mut batch = None;
    for _ in 0..17 {
        if let Some(b) = handler.dispatch(&mut ctx, &device, 2, 3, 1).1 {
            batch = Some(b);
        }
    }
    let batch = batch.expect("the seventeenth dispatch must flush");
    assert_eq!(batch.len(), 17);
    for cmd in &batch {
        match cmd {
            TTCommand::ComputeDispatch { pipeline, x, y, z, .. } => {
                assert_eq!(pipeline.0, id.0);
                assert_eq!((*x, *y, *z), (2, 3, 1));
            }
            other => panic!("unexpected command {:?}", other),
        }
    }
}

#[test]
fn check_command_stack_flushes_iff_counter_exceeds_threshold() {
    let device = TexTransCoreEngineDevice::new();
    let mut ctx = device.create_ctx();

    // counter at the threshold: no flush
    for _ in 0..16 {
        let _ = ctx.get_command_encoder_as_mut();
    }
    assert!(ctx.check_command_stack(&device).is_none());
    assert_eq!(ctx.command_stack_count, 16);

    // one past the threshold: flush, counter restarts
    let _ = ctx.get_command_encoder_as_mut();
    let flushed = ctx.check_command_stack(&device);
    assert!(flushed.is_some());
    assert_eq!(ctx.command_stack_count, 0);
    assert!(ctx.command_encoder.is_none());
}

#[test]
fn send_command_with_no_encoder_submits_empty_batch() {
    let device = TexTransCoreEngineDevice::new();
    let mut ctx = device.create_ctx();
    let batch = ctx.send_command();
    assert!(batch.is_empty());
    assert_eq!(ctx.command_stack_count, 0);
}

#[test]
fn copy_texture_records_one_copy_command() {
    let device = TexTransCoreEngineDevice::new();
    let mut ctx = device.create_ctx();
    let src = ctx.get_render_texture(
        &device,
        4,
        4,
        ttce_wgpu_rust_core::TexTransCoreTextureChannel::RGBA,
    );
    let dst = ctx.get_render_texture(
        &device,
        4,
        4,
        ttce_wgpu_rust_core::TexTransCoreTextureChannel::RGBA,
    );
    ctx.copy_texture(&dst, &src);
    assert_eq!(ctx.command_stack_count, 1);
    let pending = ctx.command_encoder.as_ref().unwrap();
    assert_eq!(
        pending[0],
        TTCommand::CopyTextureToTexture {
            src: src.handle,
            dst: dst.handle,
            width: 4,
            height: 4
        }
    );
}
