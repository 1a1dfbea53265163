use ttce_wgpu_rust_core::compute_shader::{
    IrAddressSpace, IrEntryPoint, IrGlobalVariable, IrImageClass, IrImageDimension,
    IrResourceBinding, IrStorageAccess, IrTypeShape, ShaderIrModule, TTBindingType,
    TTComputeShaderID,
};
use ttce_wgpu_rust_core::render_texture::GpuTextureFormat;
use ttce_wgpu_rust_core::tex_trans_core_engine::TexTransCoreEngineDevice;
use ttce_wgpu_rust_core::{TexTransCoreTextureFormat, WorkGroupSize};

fn storage_image_global(name: &str, slot: u32, format: GpuTextureFormat) -> IrGlobalVariable {
    IrGlobalVariable {
        name: Some(String::from(name)),
        binding: Some(IrResourceBinding { group: 0, binding: slot }),
        space: IrAddressSpace::Other,
        ty: IrTypeShape::Image {
            dim: IrImageDimension::D2,
            arrayed: false,
            class: IrImageClass::Storage {
                format,
                access: IrStorageAccess { load: true, store: true },
            },
        },
    }
}

fn sample_module() -> ShaderIrModule {
    ShaderIrModule {
        global_variables: vec![
            storage_image_global("Tex", 0, GpuTextureFormat::Rgba32Float),
            IrGlobalVariable {
                name: Some(String::from("gv")),
                binding: Some(IrResourceBinding { group: 0, binding: 1 }),
                space: IrAddressSpace::Uniform,
                ty: IrTypeShape::Struct,
            },
            IrGlobalVariable {
                name: Some(String::from("buf")),
                binding: Some(IrResourceBinding { group: 0, binding: 2 }),
                space: IrAddressSpace::Storage,
                ty: IrTypeShape::Struct,
            },
            // bound outside group 0: reflection skips it
            IrGlobalVariable {
                name: Some(String::from("other_group")),
                binding: Some(IrResourceBinding { group: 1, binding: 0 }),
                space: IrAddressSpace::Uniform,
                ty: IrTypeShape::Struct,
            },
            // unnamed: reflection skips it
            IrGlobalVariable {
                name: None,
                binding: Some(IrResourceBinding { group: 0, binding: 7 }),
                space: IrAddressSpace::Uniform,
                ty: IrTypeShape::Struct,
            },
        ],
        entry_points: vec![IrEntryPoint {
            workgroup_size_x: 32,
            workgroup_size_y: 32,
            workgroup_size_z: 1,
        }],
    }
}

#[test]
fn registration_reflects_group0_bindings_in_order() {
    let mut device = TexTransCoreEngineDevice::new();
    let mut ir = sample_module();
    let id = device.register_compute_shader(&mut ir);
    assert_eq!(id.0, 0);

    let shader = &device.compute_shader[0];
    let names: Vec<(String, u32)> = shader.binding_map.clone();
    assert_eq!(
        names,
        vec![
            (String::from("Tex"), 0),
            (String::from("gv"), 1),
            (String::from("buf"), 2)
        ]
    );
}

#[test]
fn registration_classifies_binding_types() {
    let mut device = TexTransCoreEngineDevice::new();
    let mut ir = sample_module();
    device.register_compute_shader(&mut ir);

    let shader = &device.compute_shader[0];
    assert_eq!(
        shader.binding_type,
        vec![
            (0, TTBindingType::RWRenderTexture),
            (1, TTBindingType::ConstantsBuffer),
            (2, TTBindingType::StorageBuffer)
        ]
    );
}

#[test]
fn registration_clamps_32_32_1_to_16_16_1() {
    let mut device = TexTransCoreEngineDevice::new();
    let mut ir = sample_module();
    device.register_compute_shader(&mut ir);
    assert_eq!(device.compute_shader[0].work_group_size.x, 16);
    assert_eq!(device.compute_shader[0].work_group_size.y, 16);
    assert_eq!(device.compute_shader[0].work_group_size.z, 1);
    assert_eq!(ir.entry_points[0].workgroup_size_x, 16);
}

#[test]
fn registration_keeps_other_work_group_sizes() {
    let mut device = TexTransCoreEngineDevice::new();
    let mut ir = sample_module();
    ir.entry_points[0] = IrEntryPoint {
        workgroup_size_x: 8,
        workgroup_size_y: 8,
        workgroup_size_z: 1,
    };
    device.register_compute_shader(&mut ir);
    assert_eq!(device.compute_shader[0].work_group_size.x, 8);
}

#[test]
fn registration_rewrites_neutral_storage_format_to_default() {
    let mut device = TexTransCoreEngineDevice::new();
    device.set_default_texture_format(TexTransCoreTextureFormat::Byte);
    let mut ir = sample_module();
    device.register_compute_shader(&mut ir);
    match &ir.global_variables[0].ty {
        IrTypeShape::Image { class: IrImageClass::Storage { format, .. }, .. } => {
            assert_eq!(*format, GpuTextureFormat::Rgba8Unorm);
        }
        other => panic!("unexpected shape {:?}", other),
    }
}

#[test]
fn registration_leaves_non_neutral_storage_formats_alone() {
    let mut device = TexTransCoreEngineDevice::new();
    device.set_default_texture_format(TexTransCoreTextureFormat::Byte);
    let mut ir = sample_module();
    ir.global_variables[0] = storage_image_global("Tex", 0, GpuTextureFormat::Rg16Float);
    device.register_compute_shader(&mut ir);
    match &ir.global_variables[0].ty {
        IrTypeShape::Image { class: IrImageClass::Storage { format, .. }, .. } => {
            assert_eq!(*format, GpuTextureFormat::Rg16Float);
        }
        other => panic!("unexpected shape {:?}", other),
    }
}

#[test]
fn registering_same_source_twice_yields_distinct_ids() {
    let mut device = TexTransCoreEngineDevice::new();
    let ctx = device.create_ctx();
    let mut ir1 = sample_module();
    let mut ir2 = sample_module();
    let id1 = device.register_compute_shader(&mut ir1);
    let id2 = device.register_compute_shader(&mut ir2);
    assert_ne!(id1.0, id2.0);
    assert!(ctx.get_compute_handler(&device, &id1).is_ok());
    assert!(ctx.get_compute_handler(&device, &id2).is_ok());
}

#[test]
fn unregistered_id_is_refused() {
    let device = TexTransCoreEngineDevice::new();
    let ctx = device.create_ctx();
    let r = ctx.get_compute_handler(&device, &TTComputeShaderID::from(0));
    assert_eq!(r.err(), Some("un registered id"));
}

#[test]
fn bind_index_of_absent_name_is_none() {
    let mut device = TexTransCoreEngineDevice::new();
    let ctx = device.create_ctx();
    let mut ir = sample_module();
    let id = device.register_compute_shader(&mut ir);
    let handler = ctx.get_compute_handler(&device, &id).unwrap();
    assert_eq!(handler.get_bind_index("Tex"), Some(0));
    assert_eq!(handler.get_bind_index("gv"), Some(1));
    assert_eq!(handler.get_bind_index("NoSuchName"), None);
    assert_eq!(handler.get_bind_index("other_group"), None);
}

#[test]
fn work_group_size_converts_across_the_host_boundary() {
    let wgs = ttce_wgpu_rust_core::compute_shader::WorkGroupSize { x: 4, y: 2, z: 1 };
    let out = WorkGroupSize::from(wgs);
    assert_eq!((out.x, out.y, out.z), (4, 2, 1));
}
