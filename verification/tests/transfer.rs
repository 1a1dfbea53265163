use ttce_wgpu_rust_core::compute_shader::{
    IrAddressSpace, IrEntryPoint, IrGlobalVariable, IrResourceBinding, IrTypeShape, ShaderIrModule,
};
use ttce_wgpu_rust_core::render_texture::{GpuTextureFormat, TTRenderTexture};
use ttce_wgpu_rust_core::tex_trans_core_engine::{
    GpuAction, RequestFormat, TTCommand, TTRtRequestDescriptor, TexTransCoreEngineDevice,
};
use ttce_wgpu_rust_core::{TexTransCoreTextureChannel, TexTransCoreTextureFormat};

const ALL_FORMATS: [TexTransCoreTextureFormat; 4] = [
    TexTransCoreTextureFormat::Byte,
    TexTransCoreTextureFormat::UShort,
    TexTransCoreTextureFormat::Half,
    TexTransCoreTextureFormat::Float,
];

fn device_with_converters() -> TexTransCoreEngineDevice {
    let mut device = TexTransCoreEngineDevice::new();
    device.register_format_convertor();
    device
}

#[test]
fn converter_network_covers_every_ordered_distinct_pair() {
    let device = device_with_converters();
    assert_eq!(device.compute_shader.len(), 12);
    for f1 in ALL_FORMATS {
        for f2 in ALL_FORMATS {
            let from =
                TTRenderTexture::to_wgpu_texture_format(f1, TexTransCoreTextureChannel::RGBA);
            let to = TTRenderTexture::to_wgpu_texture_format(f2, TexTransCoreTextureChannel::RGBA);
            assert_eq!(device.find_converter(from, to).is_some(), f1 != f2);
        }
    }
}

#[test]
fn converter_shaders_carry_the_canonical_binding_maps() {
    let device = device_with_converters();
    let ctx = device.create_ctx();
    let id = device
        .find_converter(GpuTextureFormat::Rgba8Unorm, GpuTextureFormat::Rgba32Float)
        .unwrap();
    let handler = ctx.get_compute_handler(&device, &id).unwrap();
    assert_eq!(handler.get_bind_index("SrcTex"), Some(0));
    assert_eq!(handler.get_bind_index("DistTex"), Some(1));
    let wgs = handler.get_work_group_size();
    assert_eq!((wgs.x, wgs.y, wgs.z), (16, 16, 1));
}

#[test]
fn converter_ids_are_distinct_per_pair() {
    let device = device_with_converters();
    let mut seen: Vec<u32> = device.converter_id.iter().map(|e| e.1 .0).collect();
    seen.sort();
    seen.dedup();
    assert_eq!(seen.len(), 12);
}

#[test]
fn same_format_upload_flushes_then_writes_directly() {
    let device = device_with_converters();
    let mut ctx = device.create_ctx();
    let target = ctx.get_render_texture_with(
        &device,
        &TTRtRequestDescriptor {
            width: 8,
            height: 8,
            format: RequestFormat::Manual(
                TexTransCoreTextureFormat::Byte,
                TexTransCoreTextureChannel::RGBA,
            ),
        },
    );
    assert_eq!(target.format, GpuTextureFormat::Rgba8Unorm);

    let red: Vec<u8> = [255, 0, 0, 255].repeat(64);
    let acts = ctx.upload_texture(&device, &target, &red, TexTransCoreTextureFormat::Byte);
    assert_eq!(acts.len(), 2);
    assert!(matches!(&acts[0], GpuAction::Submit { commands } if commands.is_empty()));
    match &acts[1] {
        GpuAction::WriteTexture { texture, data, bytes_per_row, width, height } => {
            assert_eq!(*texture, target.handle);
            assert_eq!(data, &red);
            assert_eq!(*bytes_per_row, 8 * 4);
            assert_eq!((*width, *height), (8, 8));
        }
        other => panic!("unexpected action {:?}", other),
    }
}

#[test]
fn different_format_upload_converts_through_a_scratch_texture() {
    let device = device_with_converters();
    let mut ctx = device.create_ctx();
    // the target keeps the device default (32-bit float RGBA)
    let target = ctx.get_render_texture(&device, 8, 8, TexTransCoreTextureChannel::RGBA);
    assert_eq!(target.format, GpuTextureFormat::Rgba32Float);

    let red: Vec<u8> = [255, 0, 0, 255].repeat(64);
    let acts = ctx.upload_texture(&device, &target, &red, TexTransCoreTextureFormat::Byte);
    assert_eq!(acts.len(), 3);

    let scratch = match &acts[0] {
        GpuAction::CreateTexture { texture } => *texture,
        other => panic!("unexpected action {:?}", other),
    };
    assert_eq!(scratch.format, GpuTextureFormat::Rgba8Unorm);
    assert_eq!((scratch.width, scratch.height), (8, 8));

    assert!(matches!(&acts[1], GpuAction::WriteTexture { texture, data, .. }
        if *texture == scratch.handle && data == &red));

    let expected_converter = device
        .find_converter(GpuTextureFormat::Rgba8Unorm, GpuTextureFormat::Rgba32Float)
        .unwrap();
    match &acts[2] {
        GpuAction::RecordCommand { command: TTCommand::ComputeDispatch { pipeline, entries, x, y, z } } => {
            assert_eq!(pipeline.0, expected_converter.0);
            assert_eq!((*x, *y, *z), (1, 1, 1));
            assert_eq!(entries.len(), 2);
        }
        other => panic!("unexpected action {:?}", other),
    }
    // the conversion dispatch stays pending until a flush or readback
    assert_eq!(ctx.command_encoder.as_ref().unwrap().len(), 1);
}

#[test]
fn red_byte_texture_to_float_download_scenario() {
    let device = device_with_converters();
    let mut ctx = device.create_ctx();
    let target = ctx.get_render_texture_with(
        &device,
        &TTRtRequestDescriptor {
            width: 8,
            height: 8,
            format: RequestFormat::Manual(
                TexTransCoreTextureFormat::Byte,
                TexTransCoreTextureChannel::RGBA,
            ),
        },
    );
    let red: Vec<u8> = [255, 0, 0, 255].repeat(64);
    let upload_acts = ctx.upload_texture(&device, &target, &red, TexTransCoreTextureFormat::Byte);
    assert_eq!(upload_acts.len(), 2);

    let (acts, readback) =
        ctx.download_texture(&device, &target, Some(TexTransCoreTextureFormat::Float));
    // 8 x 8 texels, 16 bytes per 32-bit float RGBA texel
    assert_eq!(readback.size, 8 * 8 * 16);

    assert_eq!(acts.len(), 6);
    assert!(matches!(&acts[0], GpuAction::CreateReadbackBuffer { buffer } if *buffer == readback));
    let scratch = match &acts[1] {
        GpuAction::CreateTexture { texture } => *texture,
        other => panic!("unexpected action {:?}", other),
    };
    assert_eq!(scratch.format, GpuTextureFormat::Rgba32Float);

    let expected_converter = device
        .find_converter(GpuTextureFormat::Rgba8Unorm, GpuTextureFormat::Rgba32Float)
        .unwrap();
    match &acts[2] {
        GpuAction::RecordCommand { command: TTCommand::ComputeDispatch { pipeline, .. } } => {
            assert_eq!(pipeline.0, expected_converter.0);
        }
        other => panic!("unexpected action {:?}", other),
    }
    match &acts[3] {
        GpuAction::RecordCommand {
            command: TTCommand::CopyTextureToBuffer { texture, buffer, bytes_per_row, width, height },
        } => {
            assert_eq!(*texture, scratch.handle);
            assert_eq!(*buffer, readback.handle);
            assert_eq!(*bytes_per_row, 8 * 16);
            assert_eq!((*width, *height), (8, 8));
        }
        other => panic!("unexpected action {:?}", other),
    }
    // everything pending is submitted before the map request
    match &acts[4] {
        GpuAction::Submit { commands } => assert_eq!(commands.len(), 2),
        other => panic!("unexpected action {:?}", other),
    }
    assert!(matches!(&acts[5], GpuAction::MapRead { buffer } if *buffer == readback.handle));
    assert!(ctx.command_encoder.is_none());
    assert_eq!(ctx.command_stack_count, 0);
}

#[test]
fn same_format_download_copies_directly() {
    let device = device_with_converters();
    let mut ctx = device.create_ctx();
    let target = ctx.get_render_texture(&device, 4, 4, TexTransCoreTextureChannel::RGBA);

    let (acts, readback) = ctx.download_texture(&device, &target, None);
    assert_eq!(readback.size, 4 * 4 * 16);
    assert_eq!(acts.len(), 4);
    assert!(matches!(&acts[0], GpuAction::CreateReadbackBuffer { .. }));
    assert!(matches!(&acts[1], GpuAction::RecordCommand {
        command: TTCommand::CopyTextureToBuffer { texture, .. }
    } if *texture == target.handle));
    assert!(matches!(&acts[2], GpuAction::Submit { commands } if commands.len() == 1));
    assert!(matches!(&acts[3], GpuAction::MapRead { buffer } if *buffer == readback.handle));
}

#[test]
fn auto_format_uses_float_for_narrow_channels() {
    let mut device = TexTransCoreEngineDevice::new();
    device.set_default_texture_format(TexTransCoreTextureFormat::Byte);
    let mut ctx = device.create_ctx();
    let rgba = ctx.get_render_texture(&device, 2, 2, TexTransCoreTextureChannel::RGBA);
    let r = ctx.get_render_texture(&device, 2, 2, TexTransCoreTextureChannel::R);
    let rg = ctx.get_render_texture(&device, 2, 2, TexTransCoreTextureChannel::RG);
    assert_eq!(rgba.format, GpuTextureFormat::Rgba8Unorm);
    assert_eq!(r.format, GpuTextureFormat::R32Float);
    assert_eq!(rg.format, GpuTextureFormat::Rg32Float);
}

#[test]
fn render_texture_reports_its_format_and_size() {
    let device = TexTransCoreEngineDevice::new();
    let mut ctx = device.create_ctx();
    let tex = ctx.get_render_texture(&device, 6, 3, TexTransCoreTextureChannel::RGBA);
    assert_eq!(tex.width(), 6);
    assert_eq!(tex.height(), 3);
    assert_eq!(
        tex.tt_format(),
        Some((
            TexTransCoreTextureFormat::Float,
            TexTransCoreTextureChannel::RGBA
        ))
    );
}

#[test]
fn registration_after_setup_leaves_converters_usable() {
    let mut device = device_with_converters();
    let mut ir = ShaderIrModule {
        global_variables: vec![IrGlobalVariable {
            name: Some(String::from("gv")),
            binding: Some(IrResourceBinding { group: 0, binding: 0 }),
            space: IrAddressSpace::Uniform,
            ty: IrTypeShape::Struct,
        }],
        entry_points: vec![IrEntryPoint {
            workgroup_size_x: 8,
            workgroup_size_y: 8,
            workgroup_size_z: 1,
        }],
    };
    let id = device.register_compute_shader(&mut ir);
    assert_eq!(id.0, 12);

    // the converter network is untouched by the later registration
    let converter = device
        .find_converter(GpuTextureFormat::Rgba16Float, GpuTextureFormat::Rgba8Unorm)
        .unwrap();
    let ctx = device.create_ctx();
    let handler = ctx.get_compute_handler(&device, &converter).unwrap();
    assert_eq!(handler.get_bind_index("SrcTex"), Some(0));
    assert_eq!(handler.get_bind_index("DistTex"), Some(1));
}

#[test]
fn conversion_dispatch_covers_partial_tiles() {
    let device = device_with_converters();
    let mut ctx = device.create_ctx();
    // 24 x 8: the second 16-wide tile is only partly filled, but it must
    // still be dispatched
    let target = ctx.get_render_texture(&device, 24, 8, TexTransCoreTextureChannel::RGBA);
    let bytes: Vec<u8> = vec![0; 24 * 8 * 4];
    let acts = ctx.upload_texture(&device, &target, &bytes, TexTransCoreTextureFormat::Byte);
    match &acts[2] {
        GpuAction::RecordCommand { command: TTCommand::ComputeDispatch { x, y, z, .. } } => {
            assert_eq!((*x, *y, *z), (2, 1, 1));
        }
        other => panic!("unexpected action {:?}", other),
    }
}
