//! Render textures and the pixel-format taxonomy.
//!
//! The engine works with 12 legal texel layouts: four numeric formats
//! ([`TexTransCoreTextureFormat`]) times three channel layouts
//! ([`TexTransCoreTextureChannel`]). [`GpuTextureFormat`] models the GPU
//! API's own texture-format enumeration, restricted to those 12 layouts plus
//! `Other`, which stands for any format the engine does not support.

use vstd::prelude::*;

use vstd::arithmetic::div_mod::{lemma_fundamental_div_mod, lemma_mod_bound};
use vstd::slice::slice_to_vec;
use vstd::string::StringExecFns;

use crate::compute_shader::{
    bind_map_view, spec_bind_index, spec_binding_type, spec_slot_update, AsTypeStr, TTBindingType,
    TTComputeShader, TTComputeShaderID, WorkGroupSize,
};
use crate::tex_trans_core_engine::{
    ActionView, BindGroupEntryView, CommandView, GpuAction, RequestFormat, ResourceView, TTCommand,
    TTReadbackBuffer, TTRtRequestDescriptor, TexTransCoreEngineContext, TexTransCoreEngineDevice,
};
use crate::{TexTransCoreTextureChannel, TexTransCoreTextureFormat};

verus! {

/// The GPU API's native texture format, as far as the engine reads it.
/// `Other` stands for every remaining format of the GPU API.
#[derive(Clone, Copy, PartialEq, Eq, Structural, Debug)]
pub enum GpuTextureFormat {
    R8Unorm,
    Rg8Unorm,
    Rgba8Unorm,
    R16Unorm,
    Rg16Unorm,
    Rgba16Unorm,
    R16Float,
    Rg16Float,
    Rgba16Float,
    R32Float,
    Rg32Float,
    Rgba32Float,
    Other,
}

/// An ordered pair of native formats the converter network translates
/// between; the key of the device's converter table.
#[derive(Clone, Copy, PartialEq, Eq, Structural, Debug)]
pub struct ConvertTextureFormat {
    pub from: GpuTextureFormat,
    pub to: GpuTextureFormat,
}

/// A GPU texture as the engine sees it: its size, its native format, and a
/// handle with which the host correlates the actual GPU object.
#[derive(Clone, Copy, PartialEq, Eq, Structural, Debug)]
pub struct TTRenderTexture {
    pub handle: u64,
    pub width: u32,
    pub height: u32,
    pub format: GpuTextureFormat,
}

impl TTRenderTexture {
    pub fn width(&self) -> (r: u32)
        ensures
            r == self.width,
    {
        self.width
    }

    pub fn height(&self) -> (r: u32)
        ensures
            r == self.height,
    {
        self.height
    }

    pub fn format(&self) -> (r: GpuTextureFormat)
        ensures
            r == self.format,
    {
        self.format
    }

    /// The allocation request that reproduces this texture: its size and
    /// its explicit (format, channel) pair.
    pub fn get_request_descriptor(&self) -> (r: TTRtRequestDescriptor)
        requires
            Self::spec_from_wgpu_texture_format(self.format) is Some,
        ensures
            r.width == self.width,
            r.height == self.height,
            r.format == RequestFormat::Manual(
                Self::spec_from_wgpu_texture_format(self.format).unwrap().0,
                Self::spec_from_wgpu_texture_format(self.format).unwrap().1,
            ),
    {
        let format = match Self::from_wgpu_texture_format(self.format) {
            Some(p) => p,
            None => unreached(),
        };
        TTRtRequestDescriptor {
            width: self.width,
            height: self.height,
            format: RequestFormat::Manual(format.0, format.1),
        }
    }

    /// The (format, channel) pair this texture was allocated with, or `None`
    /// when its native format is not one of the 12 supported layouts.
    pub fn tt_format(&self) -> (r: Option<(TexTransCoreTextureFormat, TexTransCoreTextureChannel)>)
        ensures
            r == Self::spec_from_wgpu_texture_format(self.format),
    {
        Self::from_wgpu_texture_format(self.format)
    }

    /// Maps a native GPU format back to the engine's (format, channel) pair.
    pub fn from_wgpu_texture_format(format: GpuTextureFormat) -> (r: Option<
        (TexTransCoreTextureFormat, TexTransCoreTextureChannel),
    >)
        ensures
            r == Self::spec_from_wgpu_texture_format(format),
    {
        match format {
            GpuTextureFormat::R8Unorm => Some(
                (TexTransCoreTextureFormat::Byte, TexTransCoreTextureChannel::R),
            ),
            GpuTextureFormat::Rg8Unorm => Some(
                (TexTransCoreTextureFormat::Byte, TexTransCoreTextureChannel::RG),
            ),
            GpuTextureFormat::Rgba8Unorm => Some(
                (TexTransCoreTextureFormat::Byte, TexTransCoreTextureChannel::RGBA),
            ),
            GpuTextureFormat::R16Unorm => Some(
                (TexTransCoreTextureFormat::UShort, TexTransCoreTextureChannel::R),
            ),
            GpuTextureFormat::Rg16Unorm => Some(
                (TexTransCoreTextureFormat::UShort, TexTransCoreTextureChannel::RG),
            ),
            GpuTextureFormat::Rgba16Unorm => Some(
                (TexTransCoreTextureFormat::UShort, TexTransCoreTextureChannel::RGBA),
            ),
            GpuTextureFormat::R16Float => Some(
                (TexTransCoreTextureFormat::Half, TexTransCoreTextureChannel::R),
            ),
            GpuTextureFormat::Rg16Float => Some(
                (TexTransCoreTextureFormat::Half, TexTransCoreTextureChannel::RG),
            ),
            GpuTextureFormat::Rgba16Float => Some(
                (TexTransCoreTextureFormat::Half, TexTransCoreTextureChannel::RGBA),
            ),
            GpuTextureFormat::R32Float => Some(
                (TexTransCoreTextureFormat::Float, TexTransCoreTextureChannel::R),
            ),
            GpuTextureFormat::Rg32Float => Some(
                (TexTransCoreTextureFormat::Float, TexTransCoreTextureChannel::RG),
            ),
            GpuTextureFormat::Rgba32Float => Some(
                (TexTransCoreTextureFormat::Float, TexTransCoreTextureChannel::RGBA),
            ),
            GpuTextureFormat::Other => None,
        }
    }

    pub open spec fn spec_from_wgpu_texture_format(format: GpuTextureFormat) -> Option<
        (TexTransCoreTextureFormat, TexTransCoreTextureChannel),
    > {
        match format {
            GpuTextureFormat::R8Unorm => Some(
                (TexTransCoreTextureFormat::Byte, TexTransCoreTextureChannel::R),
            ),
            GpuTextureFormat::Rg8Unorm => Some(
                (TexTransCoreTextureFormat::Byte, TexTransCoreTextureChannel::RG),
            ),
            GpuTextureFormat::Rgba8Unorm => Some(
                (TexTransCoreTextureFormat::Byte, TexTransCoreTextureChannel::RGBA),
            ),
            GpuTextureFormat::R16Unorm => Some(
                (TexTransCoreTextureFormat::UShort, TexTransCoreTextureChannel::R),
            ),
            GpuTextureFormat::Rg16Unorm => Some(
                (TexTransCoreTextureFormat::UShort, TexTransCoreTextureChannel::RG),
            ),
            GpuTextureFormat::Rgba16Unorm => Some(
                (TexTransCoreTextureFormat::UShort, TexTransCoreTextureChannel::RGBA),
            ),
            GpuTextureFormat::R16Float => Some(
                (TexTransCoreTextureFormat::Half, TexTransCoreTextureChannel::R),
            ),
            GpuTextureFormat::Rg16Float => Some(
                (TexTransCoreTextureFormat::Half, TexTransCoreTextureChannel::RG),
            ),
            GpuTextureFormat::Rgba16Float => Some(
                (TexTransCoreTextureFormat::Half, TexTransCoreTextureChannel::RGBA),
            ),
            GpuTextureFormat::R32Float => Some(
                (TexTransCoreTextureFormat::Float, TexTransCoreTextureChannel::R),
            ),
            GpuTextureFormat::Rg32Float => Some(
                (TexTransCoreTextureFormat::Float, TexTransCoreTextureChannel::RG),
            ),
            GpuTextureFormat::Rgba32Float => Some(
                (TexTransCoreTextureFormat::Float, TexTransCoreTextureChannel::RGBA),
            ),
            GpuTextureFormat::Other => None,
        }
    }

    /// Maps an engine (format, channel) pair to the native GPU texture
    /// format used to allocate such a texture. Total: every one of the 12
    /// combinations has a native format.
    pub fn to_wgpu_texture_format(
        format: TexTransCoreTextureFormat,
        channel: TexTransCoreTextureChannel,
    ) -> (r: GpuTextureFormat)
        ensures
            r == Self::spec_to_wgpu_texture_format(format, channel),
    {
        match (format, channel) {
            (TexTransCoreTextureFormat::Byte, TexTransCoreTextureChannel::R) => {
                GpuTextureFormat::R8Unorm
            },
            (TexTransCoreTextureFormat::Byte, TexTransCoreTextureChannel::RG) => {
                GpuTextureFormat::Rg8Unorm
            },
            (TexTransCoreTextureFormat::Byte, TexTransCoreTextureChannel::RGBA) => {
                GpuTextureFormat::Rgba8Unorm
            },
            (TexTransCoreTextureFormat::UShort, TexTransCoreTextureChannel::R) => {
                GpuTextureFormat::R16Unorm
            },
            (TexTransCoreTextureFormat::UShort, TexTransCoreTextureChannel::RG) => {
                GpuTextureFormat::Rg16Unorm
            },
            (TexTransCoreTextureFormat::UShort, TexTransCoreTextureChannel::RGBA) => {
                GpuTextureFormat::Rgba16Unorm
            },
            (TexTransCoreTextureFormat::Half, TexTransCoreTextureChannel::R) => {
                GpuTextureFormat::R16Float
            },
            (TexTransCoreTextureFormat::Half, TexTransCoreTextureChannel::RG) => {
                GpuTextureFormat::Rg16Float
            },
            (TexTransCoreTextureFormat::Half, TexTransCoreTextureChannel::RGBA) => {
                GpuTextureFormat::Rgba16Float
            },
            (TexTransCoreTextureFormat::Float, TexTransCoreTextureChannel::R) => {
                GpuTextureFormat::R32Float
            },
            (TexTransCoreTextureFormat::Float, TexTransCoreTextureChannel::RG) => {
                GpuTextureFormat::Rg32Float
            },
            (TexTransCoreTextureFormat::Float, TexTransCoreTextureChannel::RGBA) => {
                GpuTextureFormat::Rgba32Float
            },
        }
    }

    pub open spec fn spec_to_wgpu_texture_format(
        format: TexTransCoreTextureFormat,
        channel: TexTransCoreTextureChannel,
    ) -> GpuTextureFormat {
        match (format, channel) {
            (TexTransCoreTextureFormat::Byte, TexTransCoreTextureChannel::R) => {
                GpuTextureFormat::R8Unorm
            },
            (TexTransCoreTextureFormat::Byte, TexTransCoreTextureChannel::RG) => {
                GpuTextureFormat::Rg8Unorm
            },
            (TexTransCoreTextureFormat::Byte, TexTransCoreTextureChannel::RGBA) => {
                GpuTextureFormat::Rgba8Unorm
            },
            (TexTransCoreTextureFormat::UShort, TexTransCoreTextureChannel::R) => {
                GpuTextureFormat::R16Unorm
            },
            (TexTransCoreTextureFormat::UShort, TexTransCoreTextureChannel::RG) => {
                GpuTextureFormat::Rg16Unorm
            },
            (TexTransCoreTextureFormat::UShort, TexTransCoreTextureChannel::RGBA) => {
                GpuTextureFormat::Rgba16Unorm
            },
            (TexTransCoreTextureFormat::Half, TexTransCoreTextureChannel::R) => {
                GpuTextureFormat::R16Float
            },
            (TexTransCoreTextureFormat::Half, TexTransCoreTextureChannel::RG) => {
                GpuTextureFormat::Rg16Float
            },
            (TexTransCoreTextureFormat::Half, TexTransCoreTextureChannel::RGBA) => {
                GpuTextureFormat::Rgba16Float
            },
            (TexTransCoreTextureFormat::Float, TexTransCoreTextureChannel::R) => {
                GpuTextureFormat::R32Float
            },
            (TexTransCoreTextureFormat::Float, TexTransCoreTextureChannel::RG) => {
                GpuTextureFormat::Rg32Float
            },
            (TexTransCoreTextureFormat::Float, TexTransCoreTextureChannel::RGBA) => {
                GpuTextureFormat::Rgba32Float
            },
        }
    }

    /// The IR library's storage-texture format table coincides with the GPU
    /// API's on the 12 supported layouts, so both are modeled by
    /// [`GpuTextureFormat`].
    pub fn to_naga_storage_texture_format(
        format: TexTransCoreTextureFormat,
        channel: TexTransCoreTextureChannel,
    ) -> (r: GpuTextureFormat)
        ensures
            r == Self::spec_to_wgpu_texture_format(format, channel),
    {
        Self::to_wgpu_texture_format(format, channel)
    }
}

impl GpuTextureFormat {
    /// Bytes one texel occupies, as the GPU API documents for these
    /// uncompressed formats; `None` for an unsupported format.
    pub fn block_copy_size(&self) -> (r: Option<u32>)
        ensures
            r == self.spec_block_copy_size(),
    {
        match self {
            GpuTextureFormat::R8Unorm => Some(1),
            GpuTextureFormat::Rg8Unorm => Some(2),
            GpuTextureFormat::Rgba8Unorm => Some(4),
            GpuTextureFormat::R16Unorm => Some(2),
            GpuTextureFormat::Rg16Unorm => Some(4),
            GpuTextureFormat::Rgba16Unorm => Some(8),
            GpuTextureFormat::R16Float => Some(2),
            GpuTextureFormat::Rg16Float => Some(4),
            GpuTextureFormat::Rgba16Float => Some(8),
            GpuTextureFormat::R32Float => Some(4),
            GpuTextureFormat::Rg32Float => Some(8),
            GpuTextureFormat::Rgba32Float => Some(16),
            GpuTextureFormat::Other => None,
        }
    }

    pub open spec fn spec_block_copy_size(&self) -> Option<u32> {
        match self {
            GpuTextureFormat::R8Unorm => Some(1u32),
            GpuTextureFormat::Rg8Unorm => Some(2u32),
            GpuTextureFormat::Rgba8Unorm => Some(4u32),
            GpuTextureFormat::R16Unorm => Some(2u32),
            GpuTextureFormat::Rg16Unorm => Some(4u32),
            GpuTextureFormat::Rgba16Unorm => Some(8u32),
            GpuTextureFormat::R16Float => Some(2u32),
            GpuTextureFormat::Rg16Float => Some(4u32),
            GpuTextureFormat::Rgba16Float => Some(8u32),
            GpuTextureFormat::R32Float => Some(4u32),
            GpuTextureFormat::Rg32Float => Some(8u32),
            GpuTextureFormat::Rgba32Float => Some(16u32),
            GpuTextureFormat::Other => None,
        }
    }
}

/// Allocating a texture in any of the 12 legal (format, channel)
/// combinations and reading its layout back yields the same combination.
pub proof fn lemma_format_roundtrip(
    format: TexTransCoreTextureFormat,
    channel: TexTransCoreTextureChannel,
)
    ensures
        TTRenderTexture::spec_from_wgpu_texture_format(
            TTRenderTexture::spec_to_wgpu_texture_format(format, channel),
        ) == Some((format, channel)),
{
}

/// Each of the 12 legal combinations has a texel size equal to the
/// channel count times the bytes per channel of its numeric format.
pub proof fn lemma_block_copy_size_formula(
    format: TexTransCoreTextureFormat,
    channel: TexTransCoreTextureChannel,
)
    ensures
        TTRenderTexture::spec_to_wgpu_texture_format(format, channel).spec_block_copy_size() is Some,
        TTRenderTexture::spec_to_wgpu_texture_format(format, channel).spec_block_copy_size().unwrap()
            == format.spec_bytes_per_channel() * channel.spec_count(),
{
    match (format, channel) {
        (TexTransCoreTextureFormat::Byte, TexTransCoreTextureChannel::R) => {
            assert(format.spec_bytes_per_channel() == 1);
            assert(channel.spec_count() == 1);
            assert(format.spec_bytes_per_channel() * channel.spec_count() == 1) by (nonlinear_arith)
                requires format.spec_bytes_per_channel() == 1 && channel.spec_count() == 1;
        },
        (TexTransCoreTextureFormat::Byte, TexTransCoreTextureChannel::RG) => {
            assert(format.spec_bytes_per_channel() == 1);
            assert(channel.spec_count() == 2);
            assert(format.spec_bytes_per_channel() * channel.spec_count() == 2) by (nonlinear_arith)
                requires format.spec_bytes_per_channel() == 1 && channel.spec_count() == 2;
        },
        (TexTransCoreTextureFormat::Byte, TexTransCoreTextureChannel::RGBA) => {
            assert(format.spec_bytes_per_channel() == 1);
            assert(channel.spec_count() == 4);
            assert(format.spec_bytes_per_channel() * channel.spec_count() == 4) by (nonlinear_arith)
                requires format.spec_bytes_per_channel() == 1 && channel.spec_count() == 4;
        },
        (TexTransCoreTextureFormat::UShort, TexTransCoreTextureChannel::R) => {
            assert(format.spec_bytes_per_channel() == 2);
            assert(channel.spec_count() == 1);
            assert(format.spec_bytes_per_channel() * channel.spec_count() == 2) by (nonlinear_arith)
                requires format.spec_bytes_per_channel() == 2 && channel.spec_count() == 1;
        },
        (TexTransCoreTextureFormat::UShort, TexTransCoreTextureChannel::RG) => {
            assert(format.spec_bytes_per_channel() == 2);
            assert(channel.spec_count() == 2);
            assert(format.spec_bytes_per_channel() * channel.spec_count() == 4) by (nonlinear_arith)
                requires format.spec_bytes_per_channel() == 2 && channel.spec_count() == 2;
        },
        (TexTransCoreTextureFormat::UShort, TexTransCoreTextureChannel::RGBA) => {
            assert(format.spec_bytes_per_channel() == 2);
            assert(channel.spec_count() == 4);
            assert(format.spec_bytes_per_channel() * channel.spec_count() == 8) by (nonlinear_arith)
                requires format.spec_bytes_per_channel() == 2 && channel.spec_count() == 4;
        },
        (TexTransCoreTextureFormat::Half, TexTransCoreTextureChannel::R) => {
            assert(format.spec_bytes_per_channel() == 2);
            assert(channel.spec_count() == 1);
            assert(format.spec_bytes_per_channel() * channel.spec_count() == 2) by (nonlinear_arith)
                requires format.spec_bytes_per_channel() == 2 && channel.spec_count() == 1;
        },
        (TexTransCoreTextureFormat::Half, TexTransCoreTextureChannel::RG) => {
            assert(format.spec_bytes_per_channel() == 2);
            assert(channel.spec_count() == 2);
            assert(format.spec_bytes_per_channel() * channel.spec_count() == 4) by (nonlinear_arith)
                requires format.spec_bytes_per_channel() == 2 && channel.spec_count() == 2;
        },
        (TexTransCoreTextureFormat::Half, TexTransCoreTextureChannel::RGBA) => {
            assert(format.spec_bytes_per_channel() == 2);
            assert(channel.spec_count() == 4);
            assert(format.spec_bytes_per_channel() * channel.spec_count() == 8) by (nonlinear_arith)
                requires format.spec_bytes_per_channel() == 2 && channel.spec_count() == 4;
        },
        (TexTransCoreTextureFormat::Float, TexTransCoreTextureChannel::R) => {
            assert(format.spec_bytes_per_channel() == 4);
            assert(channel.spec_count() == 1);
            assert(format.spec_bytes_per_channel() * channel.spec_count() == 4) by (nonlinear_arith)
                requires format.spec_bytes_per_channel() == 4 && channel.spec_count() == 1;
        },
        (TexTransCoreTextureFormat::Float, TexTransCoreTextureChannel::RG) => {
            assert(format.spec_bytes_per_channel() == 4);
            assert(channel.spec_count() == 2);
            assert(format.spec_bytes_per_channel() * channel.spec_count() == 8) by (nonlinear_arith)
                requires format.spec_bytes_per_channel() == 4 && channel.spec_count() == 2;
        },
        (TexTransCoreTextureFormat::Float, TexTransCoreTextureChannel::RGBA) => {
            assert(format.spec_bytes_per_channel() == 4);
            assert(channel.spec_count() == 4);
            assert(format.spec_bytes_per_channel() * channel.spec_count() == 16) by (nonlinear_arith)
                requires format.spec_bytes_per_channel() == 4 && channel.spec_count() == 4;
        },
    }
}



/// The fixed table of ordered (from, to) pairs of distinct RGBA formats the
/// converter network is synthesized for: every ordered pair of distinct
/// formats among the four RGBA layouts, in a fixed order.
pub open spec fn spec_format_table() -> Seq<ConvertTextureFormat> {
    seq![
        ConvertTextureFormat { from: GpuTextureFormat::Rgba8Unorm, to: GpuTextureFormat::Rgba16Unorm },
        ConvertTextureFormat { from: GpuTextureFormat::Rgba8Unorm, to: GpuTextureFormat::Rgba16Float },
        ConvertTextureFormat { from: GpuTextureFormat::Rgba8Unorm, to: GpuTextureFormat::Rgba32Float },
        ConvertTextureFormat { from: GpuTextureFormat::Rgba16Unorm, to: GpuTextureFormat::Rgba8Unorm },
        ConvertTextureFormat { from: GpuTextureFormat::Rgba16Unorm, to: GpuTextureFormat::Rgba16Float },
        ConvertTextureFormat { from: GpuTextureFormat::Rgba16Unorm, to: GpuTextureFormat::Rgba32Float },
        ConvertTextureFormat { from: GpuTextureFormat::Rgba16Float, to: GpuTextureFormat::Rgba8Unorm },
        ConvertTextureFormat { from: GpuTextureFormat::Rgba16Float, to: GpuTextureFormat::Rgba16Unorm },
        ConvertTextureFormat { from: GpuTextureFormat::Rgba16Float, to: GpuTextureFormat::Rgba32Float },
        ConvertTextureFormat { from: GpuTextureFormat::Rgba32Float, to: GpuTextureFormat::Rgba8Unorm },
        ConvertTextureFormat { from: GpuTextureFormat::Rgba32Float, to: GpuTextureFormat::Rgba16Unorm },
        ConvertTextureFormat { from: GpuTextureFormat::Rgba32Float, to: GpuTextureFormat::Rgba16Float },
    ]
}

/// The converter table, as a vector.
pub fn format_table() -> (r: Vec<ConvertTextureFormat>)
    ensures
        r@ == spec_format_table(),
{
    let mut t: Vec<ConvertTextureFormat> = Vec::new();
    t.push(ConvertTextureFormat { from: GpuTextureFormat::Rgba8Unorm, to: GpuTextureFormat::Rgba16Unorm });
    t.push(ConvertTextureFormat { from: GpuTextureFormat::Rgba8Unorm, to: GpuTextureFormat::Rgba16Float });
    t.push(ConvertTextureFormat { from: GpuTextureFormat::Rgba8Unorm, to: GpuTextureFormat::Rgba32Float });
    t.push(ConvertTextureFormat { from: GpuTextureFormat::Rgba16Unorm, to: GpuTextureFormat::Rgba8Unorm });
    t.push(ConvertTextureFormat { from: GpuTextureFormat::Rgba16Unorm, to: GpuTextureFormat::Rgba16Float });
    t.push(ConvertTextureFormat { from: GpuTextureFormat::Rgba16Unorm, to: GpuTextureFormat::Rgba32Float });
    t.push(ConvertTextureFormat { from: GpuTextureFormat::Rgba16Float, to: GpuTextureFormat::Rgba8Unorm });
    t.push(ConvertTextureFormat { from: GpuTextureFormat::Rgba16Float, to: GpuTextureFormat::Rgba16Unorm });
    t.push(ConvertTextureFormat { from: GpuTextureFormat::Rgba16Float, to: GpuTextureFormat::Rgba32Float });
    t.push(ConvertTextureFormat { from: GpuTextureFormat::Rgba32Float, to: GpuTextureFormat::Rgba8Unorm });
    t.push(ConvertTextureFormat { from: GpuTextureFormat::Rgba32Float, to: GpuTextureFormat::Rgba16Unorm });
    t.push(ConvertTextureFormat { from: GpuTextureFormat::Rgba32Float, to: GpuTextureFormat::Rgba16Float });
    proof {
        assert(t@ =~= spec_format_table());
    }
    t
}

/// Text of the conversion shader before the source format name.
pub open spec fn spec_converter_template_head() -> Seq<char> {
    "\n@group(0) @binding(0)\nvar SrcTex: texture_storage_2d<"@
}

/// Text of the conversion shader between the two format names.
pub open spec fn spec_converter_template_mid() -> Seq<char> {
    ",read>;\n@group(0) @binding(1)\nvar DistTex: texture_storage_2d<"@
}

/// Text of the conversion shader after the destination format name.
pub open spec fn spec_converter_template_tail() -> Seq<char> {
    ",write>;\n\n@compute @workgroup_size(16, 16, 1)\nfn CSMain(@builtin(global_invocation_id) param: vec3<u32>) {\n    let pos = param.xy;\n    let col = textureLoad(SrcTex, pos);\n    textureStore(DistTex, pos, col);\n}\n"@
}

/// The full conversion shader for one (from, to) pair: the fixed skeleton
/// with the two WGSL format names substituted in.
pub open spec fn spec_converter_shader_source(
    from: GpuTextureFormat,
    to: GpuTextureFormat,
) -> Seq<char> {
    spec_converter_template_head() + from.spec_type_str() + spec_converter_template_mid()
        + to.spec_type_str() + spec_converter_template_tail()
}

/// Synthesizes the minimal WGSL conversion shader that identity-copies each
/// texel from a storage image of the source format into one of the
/// destination format, with a 16x16x1 work-group tile.
pub fn converter_shader_source(from: GpuTextureFormat, to: GpuTextureFormat) -> (r: String)
    requires
        from.has_type_str(),
        to.has_type_str(),
    ensures
        r@ == spec_converter_shader_source(from, to),
{
    let mut s = String::from_str("\n@group(0) @binding(0)\nvar SrcTex: texture_storage_2d<");
    s.append(from.as_type_str());
    s.append(",read>;\n@group(0) @binding(1)\nvar DistTex: texture_storage_2d<");
    s.append(to.as_type_str());
    s.append(",write>;\n\n@compute @workgroup_size(16, 16, 1)\nfn CSMain(@builtin(global_invocation_id) param: vec3<u32>) {\n    let pos = param.xy;\n    let col = textureLoad(SrcTex, pos);\n    textureStore(DistTex, pos, col);\n}\n");
    s
}

/// Whether this identifier names a well-formed converter shader in the
/// device's catalog: the canonical two-texture binding map (`SrcTex` in
/// slot 0, `DistTex` in slot 1, both read/write textures) and a 16x16x1
/// work-group tile.
pub open spec fn spec_converter_shader_ok(
    dev: TexTransCoreEngineDevice,
    id: TTComputeShaderID,
) -> bool {
    &&& (id.0 as int) < dev.compute_shader@.len()
    &&& bind_map_view(dev.compute_shader@[id.0 as int].binding_map@) == seq![
        ("SrcTex"@, 0u32),
        ("DistTex"@, 1u32),
    ]
    &&& dev.compute_shader@[id.0 as int].binding_type@ == seq![
        (0u32, TTBindingType::RWRenderTexture),
        (1u32, TTBindingType::RWRenderTexture),
    ]
    &&& dev.compute_shader@[id.0 as int].work_group_size == (WorkGroupSize { x: 16, y: 16, z: 1 })
}

/// Every entry of the device's converter table names a well-formed
/// converter shader.
pub open spec fn spec_converters_wf(dev: TexTransCoreEngineDevice) -> bool {
    forall|i: int|
        0 <= i < dev.converter_id@.len() ==> spec_converter_shader_ok(
            dev,
            (#[trigger] dev.converter_id@[i]).1,
        )
}

/// First-match lookup of an ordered format pair in a converter table.
pub open spec fn spec_find_converter(
    m: Seq<(ConvertTextureFormat, TTComputeShaderID)>,
    from: GpuTextureFormat,
    to: GpuTextureFormat,
) -> Option<TTComputeShaderID>
    decreases m.len(),
{
    if m.len() == 0 {
        None
    } else if m[0].0 == (ConvertTextureFormat { from, to }) {
        Some(m[0].1)
    } else {
        spec_find_converter(m.drop_first(), from, to)
    }
}

/// A successful converter lookup returns the identifier of some table
/// entry.
pub proof fn lemma_find_converter_entry(
    m: Seq<(ConvertTextureFormat, TTComputeShaderID)>,
    from: GpuTextureFormat,
    to: GpuTextureFormat,
)
    requires
        spec_find_converter(m, from, to) is Some,
    ensures
        exists|i: int|
            0 <= i < m.len() && (#[trigger] m[i]).1 == spec_find_converter(m, from, to).unwrap(),
    decreases m.len(),
{
    if m[0].0 == (ConvertTextureFormat { from, to }) {
        assert(m[0].1 == spec_find_converter(m, from, to).unwrap());
    } else {
        lemma_find_converter_entry(m.drop_first(), from, to);
        let i = choose|i: int|
            0 <= i < m.drop_first().len() && (#[trigger] m.drop_first()[i]).1 == spec_find_converter(
                m.drop_first(),
                from,
                to,
            ).unwrap();
        assert(m[i + 1] == m.drop_first()[i]);
    }
}

/// An ordered pair present in a converter table is found by the lookup.
pub proof fn lemma_find_converter_some(
    m: Seq<(ConvertTextureFormat, TTComputeShaderID)>,
    from: GpuTextureFormat,
    to: GpuTextureFormat,
    i: int,
)
    requires
        0 <= i < m.len(),
        m[i].0 == (ConvertTextureFormat { from, to }),
    ensures
        spec_find_converter(m, from, to) is Some,
    decreases m.len(),
{
    if m[0].0 == (ConvertTextureFormat { from, to }) {
    } else {
        assert(m.drop_first()[i - 1] == m[i]);
        lemma_find_converter_some(m.drop_first(), from, to, i - 1);
    }
}

impl TexTransCoreEngineDevice {
    /// Looks an ordered format pair up in the converter table.
    pub fn find_converter(&self, from: GpuTextureFormat, to: GpuTextureFormat) -> (r: Option<
        TTComputeShaderID,
    >)
        ensures
            r == spec_find_converter(self.converter_id@, from, to),
    {
        let n = self.converter_id.len();
        let mut i: usize = 0;
        proof {
            assert(self.converter_id@.skip(0) =~= self.converter_id@);
        }
        while i < n
            invariant
                i <= n,
                n == self.converter_id@.len(),
                spec_find_converter(self.converter_id@, from, to) == spec_find_converter(
                    self.converter_id@.skip(i as int),
                    from,
                    to,
                ),
            decreases n - i,
        {
            let entry = self.converter_id[i];
            proof {
                let m = self.converter_id@;
                assert(m.skip(i as int)[0] == m[i as int]);
                assert(m.skip(i as int).drop_first() =~= m.skip(i + 1));
            }
            if entry.0 == (ConvertTextureFormat { from, to }) {
                return Some(entry.1);
            }
            i = i + 1;
        }
        None
    }

    /// Builds the format-conversion network: for every ordered pair of the
    /// fixed table, appends one converter shader with the canonical
    /// two-texture binding maps and caches its identifier in the converter
    /// table under that pair. The host creates the matching GPU pipeline
    /// for each appended catalog position from
    /// [`converter_shader_source`].
    pub fn register_format_convertor(&mut self)
        requires
            old(self).compute_shader@.len() + 12 <= u32::MAX,
        ensures
            final(self).compute_shader@.len() == old(self).compute_shader@.len() + 12,
            forall|j: int|
                0 <= j < old(self).compute_shader@.len() ==> final(self).compute_shader@[j]
                    == old(self).compute_shader@[j],
            final(self).converter_id@ == old(self).converter_id@ + Seq::new(
                12,
                |i: int|
                    (
                        spec_format_table()[i],
                        TTComputeShaderID((old(self).compute_shader@.len() + i) as u32),
                    ),
            ),
            forall|j: int|
                old(self).compute_shader@.len() <= j < old(self).compute_shader@.len() + 12
                    ==> #[trigger] spec_converter_shader_ok(
                    *final(self),
                    TTComputeShaderID(j as u32),
                ),
            spec_converters_wf(*old(self)) ==> spec_converters_wf(*final(self)),
            final(self).default_render_texture_format == old(self).default_render_texture_format,
            final(self).max_command_stack_count == old(self).max_command_stack_count,
    {
        let table = format_table();
        let ghost old_len = old(self).compute_shader@.len() as int;
        let mut k: usize = 0;
        while k < 12
            invariant
                k <= 12,
                table@ == spec_format_table(),
                self.compute_shader@.len() == old_len + k,
                old_len == old(self).compute_shader@.len(),
                old_len + 12 <= u32::MAX,
                forall|j: int|
                    0 <= j < old_len ==> #[trigger] self.compute_shader@[j] == old(
                        self,
                    ).compute_shader@[j],
                self.converter_id@ == old(self).converter_id@ + Seq::new(
                    k as nat,
                    |i: int| (spec_format_table()[i], TTComputeShaderID((old_len + i) as u32)),
                ),
                forall|j: int|
                    old_len <= j < old_len + k ==> #[trigger] spec_converter_shader_ok(
                        *self,
                        TTComputeShaderID(j as u32),
                    ),
                self.default_render_texture_format == old(self).default_render_texture_format,
                self.max_command_stack_count == old(self).max_command_stack_count,
            decreases 12 - k,
        {
            let cv = table[k];

            let mut bind_map: Vec<(String, u32)> = Vec::new();
            bind_map.push((String::from_str("SrcTex"), 0));
            bind_map.push((String::from_str("DistTex"), 1));

            let mut bind_type: Vec<(u32, TTBindingType)> = Vec::new();
            bind_type.push((0, TTBindingType::RWRenderTexture));
            bind_type.push((1, TTBindingType::RWRenderTexture));

            let id = TTComputeShaderID::from(self.compute_shader.len() as u32);
            proof {
                assert(bind_map_view(bind_map@) =~= seq![("SrcTex"@, 0u32), ("DistTex"@, 1u32)]);
                assert(bind_type@ =~= seq![
                    (0u32, TTBindingType::RWRenderTexture),
                    (1u32, TTBindingType::RWRenderTexture),
                ]);
            }
            let ghost dev_before = *self;
            self.compute_shader.push(
                TTComputeShader {
                    binding_map: bind_map,
                    binding_type: bind_type,
                    work_group_size: WorkGroupSize { x: 16, y: 16, z: 1 },
                },
            );
            self.converter_id.push((cv, id));
            proof {
                assert(self.converter_id@ =~= old(self).converter_id@ + Seq::new(
                    (k + 1) as nat,
                    |i: int| (spec_format_table()[i], TTComputeShaderID((old_len + i) as u32)),
                ));
                assert forall|j: int|
                    old_len <= j < old_len + k + 1 implies #[trigger] spec_converter_shader_ok(
                    *self,
                    TTComputeShaderID(j as u32),
                ) by {
                    if j < old_len + k {
                        assert(spec_converter_shader_ok(dev_before, TTComputeShaderID(j as u32)));
                        assert(self.compute_shader@[j] == dev_before.compute_shader@[j]);
                    } else {
                        assert(self.compute_shader@[j] == self.compute_shader@.last());
                    }
                }
            }
            k = k + 1;
        }
        proof {
            assert forall|i: int|
                0 <= i < final(self).converter_id@.len()
                    && spec_converters_wf(*old(self)) implies spec_converter_shader_ok(
                *final(self),
                (final(self).converter_id@[i]).1,
            ) by {
                let old_n = old(self).converter_id@.len() as int;
                if i < old_n {
                    assert(spec_converter_shader_ok(*old(self), old(self).converter_id@[i].1));
                    assert(final(self).converter_id@[i] == old(self).converter_id@[i]);
                } else {
                    assert(final(self).converter_id@[i].1 == TTComputeShaderID(
                        (old_len + (i - old_n)) as u32,
                    ));
                }
            }
        }
    }
}

impl TexTransCoreEngineContext {
    /// Allocates a texture of the requested size in the format the device
    /// default implies for this channel layout.
    pub fn get_render_texture(
        &mut self,
        engine: &TexTransCoreEngineDevice,
        width: u32,
        height: u32,
        channel: TexTransCoreTextureChannel,
    ) -> (r: TTRenderTexture)
        requires
            width >= 1,
            height >= 1,
            old(self).next_resource_handle < u64::MAX,
        ensures
            r.handle == old(self).next_resource_handle,
            r.width == width,
            r.height == height,
            r.format == engine.spec_request_format(RequestFormat::AutoWithChannel(channel)),
            final(self).next_resource_handle == old(self).next_resource_handle + 1,
            final(self).command_encoder == old(self).command_encoder,
            final(self).command_stack_count == old(self).command_stack_count,
    {
        self.get_render_texture_with(
            engine,
            &TTRtRequestDescriptor { width, height, format: RequestFormat::AutoWithChannel(channel) },
        )
    }

    /// Allocates a texture from an explicit request descriptor.
    pub fn get_render_texture_with(
        &mut self,
        engine: &TexTransCoreEngineDevice,
        arg_desc: &TTRtRequestDescriptor,
    ) -> (r: TTRenderTexture)
        requires
            arg_desc.width >= 1,
            arg_desc.height >= 1,
            old(self).next_resource_handle < u64::MAX,
        ensures
            r.handle == old(self).next_resource_handle,
            r.width == arg_desc.width,
            r.height == arg_desc.height,
            r.format == engine.spec_request_format(arg_desc.format),
            final(self).next_resource_handle == old(self).next_resource_handle + 1,
            final(self).command_encoder == old(self).command_encoder,
            final(self).command_stack_count == old(self).command_stack_count,
    {
        let handle = self.next_resource_handle;
        self.next_resource_handle = self.next_resource_handle + 1;
        engine.create_render_texture(arg_desc, handle)
    }

    /// Records a texture-to-texture copy. The two textures must have
    /// identical sizes; no format conversion is performed.
    pub fn copy_texture(&mut self, dist: &TTRenderTexture, src: &TTRenderTexture)
        requires
            dist.width == src.width,
            dist.height == src.height,
            old(self).command_stack_count < u32::MAX,
        ensures
            final(self).pending() == old(self).pending().push(
                CommandView::CopyTextureToTexture {
                    src: src.handle,
                    dst: dist.handle,
                    width: dist.width,
                    height: dist.height,
                },
            ),
            final(self).command_stack_count == old(self).command_stack_count + 1,
            final(self).command_encoder is Some,
            final(self).next_resource_handle == old(self).next_resource_handle,
    {
        let ghost pending0 = self.pending();
        let cmd = TTCommand::CopyTextureToTexture {
            src: src.handle,
            dst: dist.handle,
            width: dist.width,
            height: dist.height,
        };
        let encoder = self.get_command_encoder_as_mut();
        encoder.push(cmd);
        proof {
            assert(self.pending() =~= pending0.push(
                CommandView::CopyTextureToTexture {
                    src: src.handle,
                    dst: dist.handle,
                    width: dist.width,
                    height: dist.height,
                },
            ));
        }
    }
}

/// Number of 16-wide work-groups that cover a dimension — the ceiling of
/// dim / 16 — and at least one.
pub open spec fn spec_workgroups16(dim: u32) -> u32 {
    if dim == 0 {
        1u32
    } else {
        ((dim - 1) / 16 + 1) as u32
    }
}

/// The work-group count covers the whole dimension and is minimal: 16
/// texels per work-group reach at least `dim`, and one work-group fewer
/// would fall short.
pub proof fn lemma_workgroups16_covers(dim: u32)
    ensures
        spec_workgroups16(dim) >= 1,
        spec_workgroups16(dim) * 16 >= dim,
        dim >= 1 ==> (spec_workgroups16(dim) - 1) * 16 < dim,
{
    if dim >= 1 {
        lemma_fundamental_div_mod((dim - 1) as int, 16);
        lemma_mod_bound((dim - 1) as int, 16);
    }
}

/// The conversion dispatch recorded for one (src, dist) pair: the cached
/// converter pipeline with `src` bound as `SrcTex` (slot 0), `dist` as
/// `DistTex` (slot 1), and one work-group per started 16x16 tile of the
/// destination — the ceiling of each dimension over 16, at least one per
/// axis.
pub open spec fn spec_convert_dispatch(
    id: TTComputeShaderID,
    dist: TTRenderTexture,
    src: TTRenderTexture,
) -> CommandView {
    CommandView::ComputeDispatch {
        pipeline: id,
        entries: seq![
            BindGroupEntryView {
                binding: 0u32,
                resource: ResourceView::TextureView { texture: src.handle },
            },
            BindGroupEntryView {
                binding: 1u32,
                resource: ResourceView::TextureView { texture: dist.handle },
            },
        ],
        x: spec_workgroups16(dist.width),
        y: spec_workgroups16(dist.height),
        z: 1u32,
    }
}

impl TexTransCoreEngineContext {
    /// Records the conversion of `src` into `dist` through the converter
    /// network: looks the (from, to) pair up in the device's table, binds
    /// the two textures to the converter's canonical slots and dispatches
    /// it, checking the backlog afterwards. Returns the recorded command
    /// (for the host to mirror into its encoder) and the flushed batch, if
    /// the backlog check flushed.
    pub fn convert_to_copy(
        &mut self,
        engine: &TexTransCoreEngineDevice,
        dist: &TTRenderTexture,
        src: &TTRenderTexture,
    ) -> (r: (TTCommand, Option<Vec<TTCommand>>))
        requires
            spec_converters_wf(*engine),
            spec_find_converter(engine.converter_id@, src.format, dist.format) is Some,
            old(self).command_stack_count < u32::MAX,
        ensures
            r.0@ == spec_convert_dispatch(
                spec_find_converter(engine.converter_id@, src.format, dist.format).unwrap(),
                *dist,
                *src,
            ),
            old(self).command_stack_count + 1 > engine.max_command_stack_count ==> {
                &&& r.1 matches Some(batch) && batch@.map_values(|c: TTCommand| c@)
                    == old(self).pending().push(r.0@)
                &&& final(self).command_encoder is None
                &&& final(self).command_stack_count == 0
            },
            old(self).command_stack_count + 1 <= engine.max_command_stack_count ==> {
                &&& r.1 is None
                &&& final(self).pending() == old(self).pending().push(r.0@)
                &&& final(self).command_stack_count == old(self).command_stack_count + 1
            },
            final(self).next_resource_handle == old(self).next_resource_handle,
    {
        let converter_id = match engine.find_converter(src.format(), dist.format()) {
            Some(id) => id,
            None => unreached(),
        };
        proof {
            lemma_find_converter_entry(engine.converter_id@, src.format, dist.format);
            let i = choose|i: int|
                0 <= i < engine.converter_id@.len() && (#[trigger] engine.converter_id@[i]).1
                    == spec_find_converter(
                    engine.converter_id@,
                    src.format,
                    dist.format,
                ).unwrap();
            assert(spec_converter_shader_ok(*engine, converter_id));
        }

        let mut converter_handler = match self.get_compute_handler(engine, &converter_id) {
            Ok(h) => h,
            Err(_) => unreached(),
        };

        let src_index = match converter_handler.get_bind_index("SrcTex") {
            Some(i) => i,
            None => unreached(),
        };
        proof {
            assert(src_index == 0);
        }
        match converter_handler.set_render_texture(src_index, src) {
            Ok(_) => {},
            Err(_) => unreached(),
        }

        proof {
            reveal_strlit("SrcTex");
            reveal_strlit("DistTex");
            assert("SrcTex"@.len() != "DistTex"@.len());
            let m = bind_map_view(converter_handler.binding_map@);
            assert(m == seq![("SrcTex"@, 0u32), ("DistTex"@, 1u32)]);
            assert(m[0].0 != "DistTex"@);
            assert(m.drop_first() =~= seq![("DistTex"@, 1u32)]);
            assert(m.drop_first()[0].0 == "DistTex"@);
            assert(spec_bind_index(m.drop_first(), "DistTex"@) == Some(1u32));
            assert(spec_bind_index(m, "DistTex"@) == Some(1u32));
        }
        let dist_index = match converter_handler.get_bind_index("DistTex") {
            Some(i) => i,
            None => unreached(),
        };
        proof {
            assert(dist_index == 1);
        }
        proof {
            let bt = converter_handler.binding_type@;
            assert(bt == seq![
                (0u32, TTBindingType::RWRenderTexture),
                (1u32, TTBindingType::RWRenderTexture),
            ]);
            assert(bt[0].0 != 1u32);
            assert(bt.drop_first() =~= seq![(1u32, TTBindingType::RWRenderTexture)]);
            assert(spec_binding_type(
                seq![(1u32, TTBindingType::RWRenderTexture)],
                1u32,
            ) == Some(TTBindingType::RWRenderTexture));
            assert(spec_binding_type(bt, 1u32) == Some(TTBindingType::RWRenderTexture));
        }
        let ghost tex_map0 = converter_handler.bind_tex_view@;
        match converter_handler.set_render_texture(dist_index, dist) {
            Ok(_) => {},
            Err(_) => unreached(),
        }
        proof {
            assert(tex_map0 =~= seq![(0u32, src.handle)]);
            assert(tex_map0[0].0 != 1u32);
            assert(tex_map0.drop_first() =~= Seq::<(u32, u64)>::empty());
            assert(spec_slot_update(tex_map0.drop_first(), 1u32, dist.handle) =~= seq![
                (1u32, dist.handle),
            ]);
            assert(converter_handler.bind_tex_view@ =~= seq![
                (0u32, src.handle),
                (1u32, dist.handle),
            ]);
        }

        let wg_size = converter_handler.get_work_group_size();
        let gx = if dist.width() == 0 {
            1
        } else {
            (dist.width() - 1) / wg_size.x + 1
        };
        let gy = if dist.height() == 0 {
            1
        } else {
            (dist.height() - 1) / wg_size.y + 1
        };
        proof {
            assert(gx == spec_workgroups16(dist.width));
            assert(gy == spec_workgroups16(dist.height));
        }

        let r = converter_handler.dispatch(self, engine, gx, gy, 1);
        proof {
            assert(crate::compute_shader::spec_entries(converter_handler) =~= seq![
                BindGroupEntryView {
                    binding: 0u32,
                    resource: ResourceView::TextureView { texture: src.handle },
                },
                BindGroupEntryView {
                    binding: 1u32,
                    resource: ResourceView::TextureView { texture: dist.handle },
                },
            ]);
            assert(crate::compute_shader::spec_dispatch_command(converter_handler, gx, gy, 1)
                == spec_convert_dispatch(converter_id, *dist, *src));
        }
        r
    }
}

/// For every ordered pair of distinct RGBA formats, the fixed converter
/// table holds the pair of their native formats.
pub proof fn lemma_format_table_complete(
    f1: TexTransCoreTextureFormat,
    f2: TexTransCoreTextureFormat,
)
    requires
        f1 != f2,
    ensures
        exists|i: int|
            0 <= i < spec_format_table().len() && #[trigger] spec_format_table()[i]
                == (ConvertTextureFormat {
                from: TTRenderTexture::spec_to_wgpu_texture_format(
                    f1,
                    TexTransCoreTextureChannel::RGBA,
                ),
                to: TTRenderTexture::spec_to_wgpu_texture_format(
                    f2,
                    TexTransCoreTextureChannel::RGBA,
                ),
            }),
{
    let key = ConvertTextureFormat {
        from: TTRenderTexture::spec_to_wgpu_texture_format(f1, TexTransCoreTextureChannel::RGBA),
        to: TTRenderTexture::spec_to_wgpu_texture_format(f2, TexTransCoreTextureChannel::RGBA),
    };
    match (f1, f2) {
        (TexTransCoreTextureFormat::Byte, TexTransCoreTextureFormat::UShort) => {
            assert(spec_format_table()[0] == key);
        },
        (TexTransCoreTextureFormat::Byte, TexTransCoreTextureFormat::Half) => {
            assert(spec_format_table()[1] == key);
        },
        (TexTransCoreTextureFormat::Byte, TexTransCoreTextureFormat::Float) => {
            assert(spec_format_table()[2] == key);
        },
        (TexTransCoreTextureFormat::UShort, TexTransCoreTextureFormat::Byte) => {
            assert(spec_format_table()[3] == key);
        },
        (TexTransCoreTextureFormat::UShort, TexTransCoreTextureFormat::Half) => {
            assert(spec_format_table()[4] == key);
        },
        (TexTransCoreTextureFormat::UShort, TexTransCoreTextureFormat::Float) => {
            assert(spec_format_table()[5] == key);
        },
        (TexTransCoreTextureFormat::Half, TexTransCoreTextureFormat::Byte) => {
            assert(spec_format_table()[6] == key);
        },
        (TexTransCoreTextureFormat::Half, TexTransCoreTextureFormat::UShort) => {
            assert(spec_format_table()[7] == key);
        },
        (TexTransCoreTextureFormat::Half, TexTransCoreTextureFormat::Float) => {
            assert(spec_format_table()[8] == key);
        },
        (TexTransCoreTextureFormat::Float, TexTransCoreTextureFormat::Byte) => {
            assert(spec_format_table()[9] == key);
        },
        (TexTransCoreTextureFormat::Float, TexTransCoreTextureFormat::UShort) => {
            assert(spec_format_table()[10] == key);
        },
        (TexTransCoreTextureFormat::Float, TexTransCoreTextureFormat::Half) => {
            assert(spec_format_table()[11] == key);
        },
        _ => {
            assert(false);
        },
    }
}

/// Position of an ordered pair in the fixed converter table, or a value
/// outside it for a pair the table lacks.
spec fn spec_format_table_index(c: ConvertTextureFormat) -> int {
    match (c.from, c.to) {
        (GpuTextureFormat::Rgba8Unorm, GpuTextureFormat::Rgba16Unorm) => 0,
        (GpuTextureFormat::Rgba8Unorm, GpuTextureFormat::Rgba16Float) => 1,
        (GpuTextureFormat::Rgba8Unorm, GpuTextureFormat::Rgba32Float) => 2,
        (GpuTextureFormat::Rgba16Unorm, GpuTextureFormat::Rgba8Unorm) => 3,
        (GpuTextureFormat::Rgba16Unorm, GpuTextureFormat::Rgba16Float) => 4,
        (GpuTextureFormat::Rgba16Unorm, GpuTextureFormat::Rgba32Float) => 5,
        (GpuTextureFormat::Rgba16Float, GpuTextureFormat::Rgba8Unorm) => 6,
        (GpuTextureFormat::Rgba16Float, GpuTextureFormat::Rgba16Unorm) => 7,
        (GpuTextureFormat::Rgba16Float, GpuTextureFormat::Rgba32Float) => 8,
        (GpuTextureFormat::Rgba32Float, GpuTextureFormat::Rgba8Unorm) => 9,
        (GpuTextureFormat::Rgba32Float, GpuTextureFormat::Rgba16Unorm) => 10,
        (GpuTextureFormat::Rgba32Float, GpuTextureFormat::Rgba16Float) => 11,
        _ => -1,
    }
}

/// The fixed converter table keys its 12 entries uniquely: no ordered
/// (from, to) pair occurs twice, so the converter table a device builds
/// from it maps each pair to exactly one shader.
pub proof fn lemma_format_table_keys_distinct()
    ensures
        forall|i: int, j: int|
            0 <= i < j < spec_format_table().len() ==> #[trigger] spec_format_table()[i]
                != #[trigger] spec_format_table()[j],
{
    assert forall|k: int|
        0 <= k < spec_format_table().len() implies #[trigger] spec_format_table_index(
        spec_format_table()[k],
    ) == k by {
        if k == 0 {
            assert(spec_format_table_index(spec_format_table()[0]) == 0);
        } else if k == 1 {
            assert(spec_format_table_index(spec_format_table()[1]) == 1);
        } else if k == 2 {
            assert(spec_format_table_index(spec_format_table()[2]) == 2);
        } else if k == 3 {
            assert(spec_format_table_index(spec_format_table()[3]) == 3);
        } else if k == 4 {
            assert(spec_format_table_index(spec_format_table()[4]) == 4);
        } else if k == 5 {
            assert(spec_format_table_index(spec_format_table()[5]) == 5);
        } else if k == 6 {
            assert(spec_format_table_index(spec_format_table()[6]) == 6);
        } else if k == 7 {
            assert(spec_format_table_index(spec_format_table()[7]) == 7);
        } else if k == 8 {
            assert(spec_format_table_index(spec_format_table()[8]) == 8);
        } else if k == 9 {
            assert(spec_format_table_index(spec_format_table()[9]) == 9);
        } else if k == 10 {
            assert(spec_format_table_index(spec_format_table()[10]) == 10);
        } else {
            assert(spec_format_table_index(spec_format_table()[11]) == 11);
        }
    }
}

/// A converter table that holds the 12 fixed entries in a row — as
/// [`TexTransCoreEngineDevice::register_format_convertor`] leaves it —
/// contains every pair of the fixed table.
pub proof fn lemma_registered_table_present(dev: TexTransCoreEngineDevice, off: int)
    requires
        0 <= off,
        off + 12 <= dev.converter_id@.len(),
        forall|i: int|
            0 <= i < 12 ==> (#[trigger] dev.converter_id@[off + i]).0 == spec_format_table()[i],
    ensures
        forall|i: int|
            0 <= i < spec_format_table().len() ==> exists|j: int|
                0 <= j < dev.converter_id@.len() && (#[trigger] dev.converter_id@[j]).0
                    == #[trigger] spec_format_table()[i],
{
    assert forall|i: int| 0 <= i < spec_format_table().len() implies exists|j: int|
        0 <= j < dev.converter_id@.len() && (#[trigger] dev.converter_id@[j]).0
            == #[trigger] spec_format_table()[i] by {
        assert(dev.converter_id@[off + i].0 == spec_format_table()[i]);
    }
}

/// Every texture the engine allocates carries a legal pixel-format tag:
/// whatever the request policy, the resolved native format maps back to
/// one of the 12 (format, channel) combinations — never to an unsupported
/// format.
pub proof fn lemma_allocated_texture_format_legal(
    dev: TexTransCoreEngineDevice,
    rf: RequestFormat,
)
    ensures
        TTRenderTexture::spec_from_wgpu_texture_format(dev.spec_request_format(rf)) is Some,
{
    match rf {
        RequestFormat::AutoWithChannel(channel) => {
            if channel == TexTransCoreTextureChannel::RGBA {
                lemma_format_roundtrip(dev.default_render_texture_format, channel);
            } else {
                lemma_format_roundtrip(TexTransCoreTextureFormat::Float, channel);
            }
        },
        RequestFormat::Manual(format, channel) => {
            lemma_format_roundtrip(format, channel);
        },
    }
}

/// Registering further shaders never breaks the converter network:
/// appending to the catalog while leaving the converter table and the
/// existing catalog entries alone preserves every converter's
/// well-formedness — an earlier identifier keeps its meaning.
pub proof fn lemma_converters_wf_preserved_by_append(
    dev1: TexTransCoreEngineDevice,
    dev2: TexTransCoreEngineDevice,
)
    requires
        spec_converters_wf(dev1),
        dev2.converter_id@ == dev1.converter_id@,
        dev2.compute_shader@.len() >= dev1.compute_shader@.len(),
        forall|j: int|
            0 <= j < dev1.compute_shader@.len() ==> #[trigger] dev2.compute_shader@[j]
                == dev1.compute_shader@[j],
    ensures
        spec_converters_wf(dev2),
{
    assert forall|i: int|
        0 <= i < dev2.converter_id@.len() implies spec_converter_shader_ok(
        dev2,
        (dev2.converter_id@[i]).1,
    ) by {
        assert(spec_converter_shader_ok(dev1, (dev1.converter_id@[i]).1));
    }
}

/// After the converter network is registered, every ordered pair of
/// distinct RGBA formats has a cached converter shader, and that shader is
/// well-formed — dispatchable with the canonical binding maps and a
/// 16x16x1 tile. (What texel values the conversion produces is up to the
/// GPU executing the synthesized shader.)
pub proof fn lemma_converter_network_complete(
    dev: TexTransCoreEngineDevice,
    f1: TexTransCoreTextureFormat,
    f2: TexTransCoreTextureFormat,
)
    requires
        f1 != f2,
        spec_converters_wf(dev),
        forall|i: int|
            0 <= i < spec_format_table().len() ==> exists|j: int|
                0 <= j < dev.converter_id@.len() && (#[trigger] dev.converter_id@[j]).0
                    == #[trigger] spec_format_table()[i],
    ensures
        spec_find_converter(
            dev.converter_id@,
            TTRenderTexture::spec_to_wgpu_texture_format(f1, TexTransCoreTextureChannel::RGBA),
            TTRenderTexture::spec_to_wgpu_texture_format(f2, TexTransCoreTextureChannel::RGBA),
        ) is Some,
        spec_converter_shader_ok(
            dev,
            spec_find_converter(
                dev.converter_id@,
                TTRenderTexture::spec_to_wgpu_texture_format(f1, TexTransCoreTextureChannel::RGBA),
                TTRenderTexture::spec_to_wgpu_texture_format(f2, TexTransCoreTextureChannel::RGBA),
            ).unwrap(),
        ),
{
    let from = TTRenderTexture::spec_to_wgpu_texture_format(f1, TexTransCoreTextureChannel::RGBA);
    let to = TTRenderTexture::spec_to_wgpu_texture_format(f2, TexTransCoreTextureChannel::RGBA);
    lemma_format_table_complete(f1, f2);
    let i = choose|i: int|
        0 <= i < spec_format_table().len() && #[trigger] spec_format_table()[i]
            == (ConvertTextureFormat { from, to });
    let j = choose|j: int|
        0 <= j < dev.converter_id@.len() && (#[trigger] dev.converter_id@[j]).0
            == spec_format_table()[i];
    lemma_find_converter_some(dev.converter_id@, from, to, j);
    lemma_find_converter_entry(dev.converter_id@, from, to);
    let k = choose|k: int|
        0 <= k < dev.converter_id@.len() && (#[trigger] dev.converter_id@[k]).1
            == spec_find_converter(dev.converter_id@, from, to).unwrap();
    assert(spec_converter_shader_ok(dev, dev.converter_id@[k].1));
}

/// The copy command that reads a texture back into a host-mappable buffer,
/// one tightly packed row of texels per row of the image.
pub open spec fn spec_copy_to_buffer(
    tex: TTRenderTexture,
    buffer: TTReadbackBuffer,
    pixel_par_byte: u32,
) -> CommandView {
    CommandView::CopyTextureToBuffer {
        texture: tex.handle,
        buffer: buffer.handle,
        bytes_per_row: (tex.width * pixel_par_byte) as u32,
        width: tex.width,
        height: tex.height,
    }
}

/// Builds the texture-to-buffer copy command.
fn make_copy_to_buffer(
    tex: &TTRenderTexture,
    buffer: &TTReadbackBuffer,
    pixel_par_byte: u32,
) -> (c: TTCommand)
    requires
        tex.width * pixel_par_byte <= u32::MAX,
    ensures
        c@ == spec_copy_to_buffer(*tex, *buffer, pixel_par_byte),
{
    TTCommand::CopyTextureToBuffer {
        texture: tex.handle,
        buffer: buffer.handle,
        bytes_per_row: tex.width * pixel_par_byte,
        width: tex.width,
        height: tex.height,
    }
}

impl TexTransCoreEngineContext {
    /// Records the readback copy from a texture into the readback buffer
    /// and submits everything pending: mapping completion is only
    /// observable after submission. Returns the copy command and the
    /// submitted batch.
    fn download_impl(
        &mut self,
        render_texture: &TTRenderTexture,
        read_back_buffer: &TTReadbackBuffer,
        download_pixel_par_byte: u32,
    ) -> (r: (TTCommand, Vec<TTCommand>))
        requires
            old(self).command_stack_count < u32::MAX,
            render_texture.width * download_pixel_par_byte <= u32::MAX,
        ensures
            r.0@ == spec_copy_to_buffer(
                *render_texture,
                *read_back_buffer,
                download_pixel_par_byte,
            ),
            r.1@.map_values(|c: TTCommand| c@) == old(self).pending().push(r.0@),
            final(self).command_encoder is None,
            final(self).command_stack_count == 0,
            final(self).next_resource_handle == old(self).next_resource_handle,
    {
        let cmd = make_copy_to_buffer(render_texture, read_back_buffer, download_pixel_par_byte);
        let cmd_ret = make_copy_to_buffer(
            render_texture,
            read_back_buffer,
            download_pixel_par_byte,
        );
        let ghost pending0 = self.pending();
        let encoder = self.get_command_encoder_as_mut();
        encoder.push(cmd);
        proof {
            assert(self.pending() =~= pending0.push(
                spec_copy_to_buffer(*render_texture, *read_back_buffer, download_pixel_par_byte),
            ));
        }
        let batch = self.send_command();
        (cmd_ret, batch)
    }

    /// Writes raw texel data into a texture. When the data's format matches
    /// the texture's, pending work is flushed and the bytes are written
    /// directly through the queue. Otherwise a same-size scratch texture in
    /// the data's format is allocated, the bytes are written into it, and a
    /// conversion dispatch from scratch into the target is recorded (and
    /// the backlog checked). The returned actions tell the host what to
    /// perform, in order. The byte length must equal width x height x the
    /// texel size of the data's format at the target's channel layout.
    pub fn upload_texture(
        &mut self,
        engine: &TexTransCoreEngineDevice,
        target: &TTRenderTexture,
        data: &[u8],
        data_format: TexTransCoreTextureFormat,
    ) -> (acts: Vec<GpuAction>)
        requires
            target.width >= 1,
            target.height >= 1,
            TTRenderTexture::spec_from_wgpu_texture_format(target.format) is Some,
            ({
                let pair = TTRenderTexture::spec_from_wgpu_texture_format(target.format).unwrap();
                let ppb = TTRenderTexture::spec_to_wgpu_texture_format(
                    data_format,
                    pair.1,
                ).spec_block_copy_size().unwrap();
                &&& target.width * target.height * ppb <= u32::MAX
                &&& data@.len() == target.width * target.height * ppb
                &&& data_format != pair.0 ==> {
                    &&& spec_converters_wf(*engine)
                    &&& spec_find_converter(
                        engine.converter_id@,
                        TTRenderTexture::spec_to_wgpu_texture_format(data_format, pair.1),
                        target.format,
                    ) is Some
                }
            }),
            old(self).command_stack_count < u32::MAX,
            old(self).next_resource_handle < u64::MAX,
        ensures
            ({
                let pair = TTRenderTexture::spec_from_wgpu_texture_format(target.format).unwrap();
                let ppb = TTRenderTexture::spec_to_wgpu_texture_format(
                    data_format,
                    pair.1,
                ).spec_block_copy_size().unwrap();
                let row = (target.width * ppb) as u32;
                if data_format == pair.0 {
                    &&& acts@.map_values(|a: GpuAction| a@) =~= seq![
                        ActionView::Submit { commands: old(self).pending() },
                        ActionView::WriteTexture {
                            texture: target.handle,
                            data: data@,
                            bytes_per_row: row,
                            width: target.width,
                            height: target.height,
                        },
                    ]
                    &&& final(self).command_encoder is None
                    &&& final(self).command_stack_count == 0
                    &&& final(self).next_resource_handle == old(self).next_resource_handle
                } else {
                    let scratch = TTRenderTexture {
                        handle: old(self).next_resource_handle,
                        width: target.width,
                        height: target.height,
                        format: TTRenderTexture::spec_to_wgpu_texture_format(data_format, pair.1),
                    };
                    let cid = spec_find_converter(
                        engine.converter_id@,
                        scratch.format,
                        target.format,
                    ).unwrap();
                    let conv = spec_convert_dispatch(cid, *target, scratch);
                    &&& final(self).next_resource_handle == old(self).next_resource_handle + 1
                    &&& old(self).command_stack_count + 1 <= engine.max_command_stack_count ==> {
                        &&& acts@.map_values(|a: GpuAction| a@) =~= seq![
                            ActionView::CreateTexture { texture: scratch },
                            ActionView::WriteTexture {
                                texture: scratch.handle,
                                data: data@,
                                bytes_per_row: row,
                                width: target.width,
                                height: target.height,
                            },
                            ActionView::RecordCommand { command: conv },
                        ]
                        &&& final(self).pending() == old(self).pending().push(conv)
                        &&& final(self).command_stack_count == old(self).command_stack_count + 1
                    }
                    &&& old(self).command_stack_count + 1 > engine.max_command_stack_count ==> {
                        &&& acts@.map_values(|a: GpuAction| a@) =~= seq![
                            ActionView::CreateTexture { texture: scratch },
                            ActionView::WriteTexture {
                                texture: scratch.handle,
                                data: data@,
                                bytes_per_row: row,
                                width: target.width,
                                height: target.height,
                            },
                            ActionView::RecordCommand { command: conv },
                            ActionView::Submit { commands: old(self).pending().push(conv) },
                        ]
                        &&& final(self).command_encoder is None
                        &&& final(self).command_stack_count == 0
                    }
                }
            }),
    {
        let pair = match TTRenderTexture::from_wgpu_texture_format(target.format()) {
            Some(p) => p,
            None => unreached(),
        };
        let target_format = pair.0;
        let target_channel = pair.1;
        proof {
            lemma_block_copy_size_formula(data_format, target_channel);
        }
        let pixel_par_byte = match TTRenderTexture::to_wgpu_texture_format(
            data_format,
            target_channel,
        ).block_copy_size() {
            Some(v) => v,
            None => unreached(),
        };
        proof {
            assert(target.width * pixel_par_byte <= target.width * target.height
                * pixel_par_byte) by (nonlinear_arith)
                requires
                    target.height >= 1,
                    target.width >= 0,
                    pixel_par_byte >= 0,
            ;
        }
        let bytes_per_row = target.width() * pixel_par_byte;

        if data_format == target_format {
            let batch = self.send_command();
            let mut acts: Vec<GpuAction> = Vec::new();
            acts.push(GpuAction::Submit { commands: batch });
            acts.push(
                GpuAction::WriteTexture {
                    texture: target.handle,
                    data: slice_to_vec(data),
                    bytes_per_row,
                    width: target.width(),
                    height: target.height(),
                },
            );
            proof {
                assert(acts@.map_values(|a: GpuAction| a@) =~= seq![
                    ActionView::Submit { commands: old(self).pending() },
                    ActionView::WriteTexture {
                        texture: target.handle,
                        data: data@,
                        bytes_per_row: (target.width * pixel_par_byte) as u32,
                        width: target.width,
                        height: target.height,
                    },
                ]);
            }
            acts
        } else {
            let scratch = self.get_render_texture_with(
                engine,
                &TTRtRequestDescriptor {
                    width: target.width(),
                    height: target.height(),
                    format: RequestFormat::Manual(data_format, target_channel),
                },
            );
            let mut acts: Vec<GpuAction> = Vec::new();
            acts.push(GpuAction::CreateTexture { texture: scratch });
            acts.push(
                GpuAction::WriteTexture {
                    texture: scratch.handle,
                    data: slice_to_vec(data),
                    bytes_per_row,
                    width: target.width(),
                    height: target.height(),
                },
            );
            let conv = self.convert_to_copy(engine, target, &scratch);
            let conv_cmd = conv.0;
            let flushed = conv.1;
            acts.push(GpuAction::RecordCommand { command: conv_cmd });
            match flushed {
                Some(batch) => {
                    acts.push(GpuAction::Submit { commands: batch });
                    proof {
                        assert(acts@.map_values(|a: GpuAction| a@) =~= seq![
                            ActionView::CreateTexture { texture: scratch },
                            ActionView::WriteTexture {
                                texture: scratch.handle,
                                data: data@,
                                bytes_per_row: (target.width * pixel_par_byte) as u32,
                                width: target.width,
                                height: target.height,
                            },
                            ActionView::RecordCommand { command: conv_cmd@ },
                            ActionView::Submit {
                                commands: old(self).pending().push(conv_cmd@),
                            },
                        ]);
                    }
                },
                None => {
                    proof {
                        assert(acts@.map_values(|a: GpuAction| a@) =~= seq![
                            ActionView::CreateTexture { texture: scratch },
                            ActionView::WriteTexture {
                                texture: scratch.handle,
                                data: data@,
                                bytes_per_row: (target.width * pixel_par_byte) as u32,
                                width: target.width,
                                height: target.height,
                            },
                            ActionView::RecordCommand { command: conv_cmd@ },
                        ]);
                    }
                },
            }
            acts
        }
    }
}

impl TexTransCoreEngineContext {
    /// Reads a texture back into a host-mappable buffer, converting to the
    /// requested format first when it differs from the texture's. The
    /// returned actions tell the host what to perform in order, ending
    /// with the map request it must await; the returned buffer description
    /// names the buffer and its exact byte size (width x height x the
    /// texel size of the effective format at the texture's channel
    /// layout). All pending work is submitted before the map request.
    pub fn download_texture(
        &mut self,
        engine: &TexTransCoreEngineDevice,
        target: &TTRenderTexture,
        download_format: Option<TexTransCoreTextureFormat>,
    ) -> (r: (Vec<GpuAction>, TTReadbackBuffer))
        requires
            target.width >= 1,
            target.height >= 1,
            TTRenderTexture::spec_from_wgpu_texture_format(target.format) is Some,
            ({
                let pair = TTRenderTexture::spec_from_wgpu_texture_format(target.format).unwrap();
                let eff = if download_format is Some {
                    download_format.unwrap()
                } else {
                    pair.0
                };
                let ppb = TTRenderTexture::spec_to_wgpu_texture_format(
                    eff,
                    pair.1,
                ).spec_block_copy_size().unwrap();
                &&& target.width * target.height * ppb <= u32::MAX
                &&& (download_format is Some && download_format.unwrap() != pair.0) ==> {
                    &&& spec_converters_wf(*engine)
                    &&& spec_find_converter(
                        engine.converter_id@,
                        target.format,
                        TTRenderTexture::spec_to_wgpu_texture_format(
                            download_format.unwrap(),
                            pair.1,
                        ),
                    ) is Some
                }
            }),
            old(self).command_stack_count + 1 < u32::MAX,
            old(self).next_resource_handle + 1 < u64::MAX,
        ensures
            ({
                let pair = TTRenderTexture::spec_from_wgpu_texture_format(target.format).unwrap();
                let eff = if download_format is Some {
                    download_format.unwrap()
                } else {
                    pair.0
                };
                let ppb = TTRenderTexture::spec_to_wgpu_texture_format(
                    eff,
                    pair.1,
                ).spec_block_copy_size().unwrap();
                &&& r.1.handle == old(self).next_resource_handle
                &&& r.1.size == target.width * target.height * ppb
                &&& final(self).command_encoder is None
                &&& final(self).command_stack_count == 0
                &&& if !(download_format is Some && download_format.unwrap() != pair.0) {
                    let copy = spec_copy_to_buffer(*target, r.1, ppb);
                    &&& r.0@.map_values(|a: GpuAction| a@) =~= seq![
                        ActionView::CreateReadbackBuffer { buffer: r.1 },
                        ActionView::RecordCommand { command: copy },
                        ActionView::Submit { commands: old(self).pending().push(copy) },
                        ActionView::MapRead { buffer: r.1.handle },
                    ]
                    &&& final(self).next_resource_handle == old(self).next_resource_handle + 1
                } else {
                    let scratch = TTRenderTexture {
                        handle: (old(self).next_resource_handle + 1) as u64,
                        width: target.width,
                        height: target.height,
                        format: TTRenderTexture::spec_to_wgpu_texture_format(
                            download_format.unwrap(),
                            pair.1,
                        ),
                    };
                    let cid = spec_find_converter(
                        engine.converter_id@,
                        target.format,
                        scratch.format,
                    ).unwrap();
                    let conv = spec_convert_dispatch(cid, scratch, *target);
                    let copy = spec_copy_to_buffer(scratch, r.1, ppb);
                    &&& final(self).next_resource_handle == old(self).next_resource_handle + 2
                    &&& old(self).command_stack_count + 1 <= engine.max_command_stack_count ==> {
                        r.0@.map_values(|a: GpuAction| a@) =~= seq![
                            ActionView::CreateReadbackBuffer { buffer: r.1 },
                            ActionView::CreateTexture { texture: scratch },
                            ActionView::RecordCommand { command: conv },
                            ActionView::RecordCommand { command: copy },
                            ActionView::Submit {
                                commands: old(self).pending().push(conv).push(copy),
                            },
                            ActionView::MapRead { buffer: r.1.handle },
                        ]
                    }
                    &&& old(self).command_stack_count + 1 > engine.max_command_stack_count ==> {
                        r.0@.map_values(|a: GpuAction| a@) =~= seq![
                            ActionView::CreateReadbackBuffer { buffer: r.1 },
                            ActionView::CreateTexture { texture: scratch },
                            ActionView::RecordCommand { command: conv },
                            ActionView::Submit { commands: old(self).pending().push(conv) },
                            ActionView::RecordCommand { command: copy },
                            ActionView::Submit { commands: seq![copy] },
                            ActionView::MapRead { buffer: r.1.handle },
                        ]
                    }
                }
            }),
    {
        let pair = match TTRenderTexture::from_wgpu_texture_format(target.format()) {
            Some(p) => p,
            None => unreached(),
        };
        let target_format = pair.0;
        let target_channel = pair.1;

        let is_format_different = match download_format {
            Some(f) => f != target_format,
            None => false,
        };
        let eff_format = match download_format {
            Some(df) => df,
            None => target_format,
        };
        proof {
            lemma_block_copy_size_formula(eff_format, target_channel);
        }
        let download_pixel_par_byte = match TTRenderTexture::to_wgpu_texture_format(
            eff_format,
            target_channel,
        ).block_copy_size() {
            Some(v) => v,
            None => unreached(),
        };
        proof {
            assert(target.width * download_pixel_par_byte <= target.width * target.height
                * download_pixel_par_byte) by (nonlinear_arith)
                requires
                    target.height >= 1,
                    target.width >= 0,
                    download_pixel_par_byte >= 0,
            ;
            assert(target.width * target.height <= target.width * target.height
                * download_pixel_par_byte) by (nonlinear_arith)
                requires
                    target.width >= 0,
                    target.height >= 0,
                    download_pixel_par_byte >= 1,
            ;
        }
        let data_size = target.width() * target.height() * download_pixel_par_byte;

        let handle = self.next_resource_handle;
        self.next_resource_handle = self.next_resource_handle + 1;
        let read_back_buffer = TTReadbackBuffer { handle, size: data_size as u64 };

        let mut acts: Vec<GpuAction> = Vec::new();
        acts.push(GpuAction::CreateReadbackBuffer { buffer: read_back_buffer });

        if is_format_different {
            let df = match download_format {
                Some(df) => df,
                None => unreached(),
            };
            let scratch = self.get_render_texture_with(
                engine,
                &TTRtRequestDescriptor {
                    width: target.width(),
                    height: target.height(),
                    format: RequestFormat::Manual(df, target_channel),
                },
            );
            acts.push(GpuAction::CreateTexture { texture: scratch });
            let conv = self.convert_to_copy(engine, &scratch, target);
            let conv_cmd = conv.0;
            let flushed = conv.1;
            acts.push(GpuAction::RecordCommand { command: conv_cmd });
            let had_flush = match flushed {
                Some(batch) => {
                    acts.push(GpuAction::Submit { commands: batch });
                    true
                },
                None => false,
            };
            let copy = self.download_impl(&scratch, &read_back_buffer, download_pixel_par_byte);
            acts.push(GpuAction::RecordCommand { command: copy.0 });
            acts.push(GpuAction::Submit { commands: copy.1 });
            acts.push(GpuAction::MapRead { buffer: read_back_buffer.handle });
            proof {
                if had_flush {
                    assert(acts@.map_values(|a: GpuAction| a@) =~= seq![
                        ActionView::CreateReadbackBuffer { buffer: read_back_buffer },
                        ActionView::CreateTexture { texture: scratch },
                        ActionView::RecordCommand { command: conv_cmd@ },
                        ActionView::Submit { commands: old(self).pending().push(conv_cmd@) },
                        ActionView::RecordCommand { command: copy.0@ },
                        ActionView::Submit { commands: seq![copy.0@] },
                        ActionView::MapRead { buffer: read_back_buffer.handle },
                    ]);
                } else {
                    assert(acts@.map_values(|a: GpuAction| a@) =~= seq![
                        ActionView::CreateReadbackBuffer { buffer: read_back_buffer },
                        ActionView::CreateTexture { texture: scratch },
                        ActionView::RecordCommand { command: conv_cmd@ },
                        ActionView::RecordCommand { command: copy.0@ },
                        ActionView::Submit {
                            commands: old(self).pending().push(conv_cmd@).push(copy.0@),
                        },
                        ActionView::MapRead { buffer: read_back_buffer.handle },
                    ]);
                }
            }
            (acts, read_back_buffer)
        } else {
            let copy = self.download_impl(target, &read_back_buffer, download_pixel_par_byte);
            acts.push(GpuAction::RecordCommand { command: copy.0 });
            acts.push(GpuAction::Submit { commands: copy.1 });
            acts.push(GpuAction::MapRead { buffer: read_back_buffer.handle });
            proof {
                assert(acts@.map_values(|a: GpuAction| a@) =~= seq![
                    ActionView::CreateReadbackBuffer { buffer: read_back_buffer },
                    ActionView::RecordCommand { command: copy.0@ },
                    ActionView::Submit { commands: old(self).pending().push(copy.0@) },
                    ActionView::MapRead { buffer: read_back_buffer.handle },
                ]);
            }
            (acts, read_back_buffer)
        }
    }
}

} // verus!
