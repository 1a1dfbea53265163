use ttce_wgpu_rust_core::compute_shader::{
    IrAddressSpace, IrEntryPoint, IrGlobalVariable, IrImageClass, IrImageDimension,
    IrResourceBinding, IrStorageAccess, IrTypeShape, ShaderIrModule,
};
use ttce_wgpu_rust_core::tex_trans_core_engine::{
    BoundResource, TTCEWgpuError, TTCommand, TexTransCoreEngineDevice,
};
use ttce_wgpu_rust_core::render_texture::GpuTextureFormat;
use ttce_wgpu_rust_core::TexTransCoreTextureChannel;

/// A shader with one slot of each binding kind: a read/write texture in
/// slot 0, a constants buffer in slot 1, a storage buffer in slot 2.
fn three_kind_module() -> ShaderIrModule {
    ShaderIrModule {
        global_variables: vec![
            IrGlobalVariable {
                name: Some(String::from("Tex")),
                binding: Some(IrResourceBinding { group: 0, binding: 0 }),
                space: IrAddressSpace::Other,
                ty: IrTypeShape::Image {
                    dim: IrImageDimension::D2,
                    arrayed: false,
                    class: IrImageClass::Storage {
                        format: GpuTextureFormat::Rgba32Float,
                        access: IrStorageAccess { load: true, store: true },
                    },
                },
            },
            IrGlobalVariable {
                name: Some(String::from("gv")),
                binding: Some(IrResourceBinding { group: 0, binding: 1 }),
                space: IrAddressSpace::Uniform,
                ty: IrTypeShape::Struct,
            },
            IrGlobalVariable {
                name: Some(String::from("buf")),
                binding: Some(IrResourceBinding { group: 0, binding: 2 }),
                space: IrAddressSpace::Storage,
                ty: IrTypeShape::Struct,
            },
        ],
        entry_points: vec![IrEntryPoint {
            workgroup_size_x: 8,
            workgroup_size_y: 8,
            workgroup_size_z: 1,
        }],
    }
}

#[test]
fn mismatched_texture_binding_is_refused_and_nothing_is_submitted() {
    let mut device = TexTransCoreEngineDevice::new();
    let mut ir = three_kind_module();
    let id = device.register_compute_shader(&mut ir);
    let mut ctx = device.create_ctx();
    let mut handler = ctx.get_compute_handler(&device, &id).unwrap();
    let tex = ctx.get_render_texture(&device, 4, 4, TexTransCoreTextureChannel::RGBA);

    // slot 1 is a constants buffer: binding a texture there must fail
    let r = handler.set_render_texture(1, &tex);
    assert_eq!(r, Err(TTCEWgpuError::BindingIsNotRWTexture));
    // the binding was not applied and no GPU work was recorded or submitted
    assert!(handler.bind_tex_view.is_empty());
    assert!(ctx.command_encoder.is_none());
    assert_eq!(ctx.command_stack_count, 0);
}

#[test]
fn binding_an_unknown_slot_reports_binding_not_found() {
    let mut device = TexTransCoreEngineDevice::new();
    let mut ir = three_kind_module();
    let id = device.register_compute_shader(&mut ir);
    let mut ctx = device.create_ctx();
    let mut handler = ctx.get_compute_handler(&device, &id).unwrap();
    let tex = ctx.get_render_texture(&device, 4, 4, TexTransCoreTextureChannel::RGBA);

    assert_eq!(
        handler.set_render_texture(9, &tex),
        Err(TTCEWgpuError::BindingNotFound)
    );
    assert_eq!(
        handler.upload_constants_buffer(9, &[0, 0, 0, 0]),
        Err(TTCEWgpuError::BindingNotFound)
    );
    let (buf, _) = ctx.allocate_storage_buffer(4, false);
    assert_eq!(
        handler.set_storage_buffer(9, &buf),
        Err(TTCEWgpuError::BindingNotFound)
    );
}

#[test]
fn constants_into_texture_slot_is_refused() {
    let mut device = TexTransCoreEngineDevice::new();
    let mut ir = three_kind_module();
    let id = device.register_compute_shader(&mut ir);
    let mut ctx = device.create_ctx();
    let mut handler = ctx.get_compute_handler(&device, &id).unwrap();

    assert_eq!(
        handler.upload_constants_buffer(0, &[1, 2, 3, 4]),
        Err(TTCEWgpuError::BindingIsNotConstantsBuffer)
    );
    assert!(handler.bind_constants_buffer.is_empty());
}

#[test]
fn storage_buffer_into_constants_slot_is_refused() {
    let mut device = TexTransCoreEngineDevice::new();
    let mut ir = three_kind_module();
    let id = device.register_compute_shader(&mut ir);
    let mut ctx = device.create_ctx();
    let mut handler = ctx.get_compute_handler(&device, &id).unwrap();
    let (buf, _) = ctx.allocate_storage_buffer(16, false);

    assert_eq!(
        handler.set_storage_buffer(1, &buf),
        Err(TTCEWgpuError::BindingIsNotStorageBuffer)
    );
    assert!(handler.bind_storage_buffer.is_empty());
}

#[test]
fn well_typed_bindings_are_accepted_and_recorded() {
    let mut device = TexTransCoreEngineDevice::new();
    let mut ir = three_kind_module();
    let id = device.register_compute_shader(&mut ir);
    let mut ctx = device.create_ctx();
    let mut handler = ctx.get_compute_handler(&device, &id).unwrap();
    let tex = ctx.get_render_texture(&device, 4, 4, TexTransCoreTextureChannel::RGBA);
    let (buf, _) = ctx.allocate_storage_buffer(16, false);

    assert_eq!(handler.set_render_texture(0, &tex), Ok(()));
    assert_eq!(handler.upload_constants_buffer(1, &[9, 8, 7, 6]), Ok(()));
    assert_eq!(handler.set_storage_buffer(2, &buf), Ok(()));

    assert_eq!(handler.bind_tex_view, vec![(0, tex.handle)]);
    assert_eq!(handler.bind_constants_buffer, vec![(1, vec![9, 8, 7, 6])]);
    assert_eq!(handler.bind_storage_buffer, vec![(2, buf.handle)]);
}

#[test]
fn rebinding_a_slot_replaces_the_prior_binding() {
    let mut device = TexTransCoreEngineDevice::new();
    let mut ir = three_kind_module();
    let id = device.register_compute_shader(&mut ir);
    let mut ctx = device.create_ctx();
    let mut handler = ctx.get_compute_handler(&device, &id).unwrap();

    assert_eq!(handler.upload_constants_buffer(1, &[1, 1]), Ok(()));
    assert_eq!(handler.upload_constants_buffer(1, &[2, 2, 2]), Ok(()));
    assert_eq!(handler.bind_constants_buffer, vec![(1, vec![2, 2, 2])]);
}

#[test]
fn dispatch_builds_bind_group_from_all_bound_slots() {
    let mut device = TexTransCoreEngineDevice::new();
    let mut ir = three_kind_module();
    let id = device.register_compute_shader(&mut ir);
    let mut ctx = device.create_ctx();
    let mut handler = ctx.get_compute_handler(&device, &id).unwrap();
    let tex = ctx.get_render_texture(&device, 4, 4, TexTransCoreTextureChannel::RGBA);
    let (buf, _) = ctx.allocate_storage_buffer(16, false);

    handler.set_render_texture(0, &tex).unwrap();
    handler.upload_constants_buffer(1, &[5, 5]).unwrap();
    handler.set_storage_buffer(2, &buf).unwrap();
    let (_, flushed) = handler.dispatch(&mut ctx, &device, 1, 1, 1);
    assert!(flushed.is_none());

    let pending = ctx.command_encoder.as_ref().unwrap();
    assert_eq!(pending.len(), 1);
    match &pending[0] {
        TTCommand::ComputeDispatch { pipeline, entries, x, y, z } => {
            assert_eq!(pipeline.0, id.0);
            assert_eq!((*x, *y, *z), (1, 1, 1));
            assert_eq!(entries.len(), 3);
            assert_eq!(entries[0].binding, 0);
            assert_eq!(
                entries[0].resource,
                BoundResource::TextureView { texture: tex.handle }
            );
            assert_eq!(entries[1].binding, 1);
            assert_eq!(
                entries[1].resource,
                BoundResource::ConstantsBuffer { data: vec![5, 5] }
            );
            assert_eq!(entries[2].binding, 2);
            assert_eq!(
                entries[2].resource,
                BoundResource::StorageBuffer { buffer: buf.handle }
            );
        }
        other => panic!("unexpected command {:?}", other),
    }
}
