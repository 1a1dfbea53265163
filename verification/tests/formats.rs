use ttce_wgpu_rust_core::render_texture::{
    converter_shader_source, format_table, ConvertTextureFormat, GpuTextureFormat, TTRenderTexture,
};
use ttce_wgpu_rust_core::{TexTransCoreTextureChannel, TexTransCoreTextureFormat};

const ALL_FORMATS: [TexTransCoreTextureFormat; 4] = [
    TexTransCoreTextureFormat::Byte,
    TexTransCoreTextureFormat::UShort,
    TexTransCoreTextureFormat::Half,
    TexTransCoreTextureFormat::Float,
];

const ALL_CHANNELS: [TexTransCoreTextureChannel; 3] = [
    TexTransCoreTextureChannel::R,
    TexTransCoreTextureChannel::RG,
    TexTransCoreTextureChannel::RGBA,
];

#[test]
fn format_roundtrip_all_twelve() {
    for format in ALL_FORMATS {
        for channel in ALL_CHANNELS {
            let native = TTRenderTexture::to_wgpu_texture_format(format, channel);
            assert_eq!(
                TTRenderTexture::from_wgpu_texture_format(native),
                Some((format, channel))
            );
        }
    }
}

#[test]
fn from_unsupported_format_is_none() {
    assert_eq!(
        TTRenderTexture::from_wgpu_texture_format(GpuTextureFormat::Other),
        None
    );
}

#[test]
fn naga_storage_format_agrees_with_wgpu_format() {
    for format in ALL_FORMATS {
        for channel in ALL_CHANNELS {
            assert_eq!(
                TTRenderTexture::to_naga_storage_texture_format(format, channel),
                TTRenderTexture::to_wgpu_texture_format(format, channel)
            );
        }
    }
}

#[test]
fn block_copy_size_exact_values() {
    let expected = [
        (GpuTextureFormat::R8Unorm, 1),
        (GpuTextureFormat::Rg8Unorm, 2),
        (GpuTextureFormat::Rgba8Unorm, 4),
        (GpuTextureFormat::R16Unorm, 2),
        (GpuTextureFormat::Rg16Unorm, 4),
        (GpuTextureFormat::Rgba16Unorm, 8),
        (GpuTextureFormat::R16Float, 2),
        (GpuTextureFormat::Rg16Float, 4),
        (GpuTextureFormat::Rgba16Float, 8),
        (GpuTextureFormat::R32Float, 4),
        (GpuTextureFormat::Rg32Float, 8),
        (GpuTextureFormat::Rgba32Float, 16),
    ];
    for (format, size) in expected {
        assert_eq!(format.block_copy_size(), Some(size));
    }
    assert_eq!(GpuTextureFormat::Other.block_copy_size(), None);
}

#[test]
fn block_copy_size_is_channels_times_bytes() {
    for format in ALL_FORMATS {
        for channel in ALL_CHANNELS {
            let native = TTRenderTexture::to_wgpu_texture_format(format, channel);
            assert_eq!(
                native.block_copy_size(),
                Some(format.bytes_per_channel() * channel.count())
            );
        }
    }
}

#[test]
fn format_table_holds_every_ordered_distinct_rgba_pair() {
    let table = format_table();
    assert_eq!(table.len(), 12);
    for f1 in ALL_FORMATS {
        for f2 in ALL_FORMATS {
            let from =
                TTRenderTexture::to_wgpu_texture_format(f1, TexTransCoreTextureChannel::RGBA);
            let to = TTRenderTexture::to_wgpu_texture_format(f2, TexTransCoreTextureChannel::RGBA);
            let present = table
                .iter()
                .any(|cv| *cv == ConvertTextureFormat { from, to });
            assert_eq!(present, f1 != f2);
        }
    }
}

#[test]
fn converter_shader_source_exact_text() {
    let source = converter_shader_source(
        GpuTextureFormat::Rgba8Unorm,
        GpuTextureFormat::Rgba32Float,
    );
    let expected = "\n@group(0) @binding(0)\nvar SrcTex: texture_storage_2d<rgba8unorm,read>;\n@group(0) @binding(1)\nvar DistTex: texture_storage_2d<rgba32float,write>;\n\n@compute @workgroup_size(16, 16, 1)\nfn CSMain(@builtin(global_invocation_id) param: vec3<u32>) {\n    let pos = param.xy;\n    let col = textureLoad(SrcTex, pos);\n    textureStore(DistTex, pos, col);\n}\n";
    assert_eq!(source, expected);
}

#[test]
fn converter_shader_source_substitutes_both_names() {
    let source = converter_shader_source(
        GpuTextureFormat::Rgba16Float,
        GpuTextureFormat::Rgba16Unorm,
    );
    assert!(source.contains("texture_storage_2d<rgba16float,read>"));
    assert!(source.contains("texture_storage_2d<rgba16unorm,write>"));
}
