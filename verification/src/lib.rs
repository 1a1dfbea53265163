//! A compute-shader execution engine for texture-transform workloads,
//! modeled over plain values so that its scheduling, format-conversion and
//! binding rules can be verified. The engine decides which GPU resources to
//! create, which commands to record and when to submit them; an unverified
//! host performs those actions against the actual GPU API.

use vstd::prelude::*;

pub mod compute_shader;
pub mod render_texture;
pub mod storage_buffer;
pub mod tex_trans_core_engine;

verus! {

/// Channel layout of a texture: one, two or four components per texel.
#[derive(Clone, Copy, PartialEq, Eq, Structural, Debug)]
pub enum TexTransCoreTextureChannel {
    R,
    RG,
    RGBA,
}

/// Numeric representation of one channel of a texel.
#[derive(Clone, Copy, PartialEq, Eq, Structural, Debug)]
pub enum TexTransCoreTextureFormat {
    Byte,
    UShort,
    Half,
    Float,
}

impl TexTransCoreTextureChannel {
    /// Number of components per texel for this channel layout.
    pub fn count(&self) -> (r: u32)
        ensures
            r == self.spec_count(),
    {
        match self {
            TexTransCoreTextureChannel::R => 1,
            TexTransCoreTextureChannel::RG => 2,
            TexTransCoreTextureChannel::RGBA => 4,
        }
    }

    pub open spec fn spec_count(&self) -> u32 {
        match self {
            TexTransCoreTextureChannel::R => 1,
            TexTransCoreTextureChannel::RG => 2,
            TexTransCoreTextureChannel::RGBA => 4,
        }
    }
}

impl TexTransCoreTextureFormat {
    /// Number of bytes one channel occupies in this format.
    pub fn bytes_per_channel(&self) -> (r: u32)
        ensures
            r == self.spec_bytes_per_channel(),
    {
        match self {
            TexTransCoreTextureFormat::Byte => 1,
            TexTransCoreTextureFormat::UShort => 2,
            TexTransCoreTextureFormat::Half => 2,
            TexTransCoreTextureFormat::Float => 4,
        }
    }

    pub open spec fn spec_bytes_per_channel(&self) -> u32 {
        match self {
            TexTransCoreTextureFormat::Byte => 1,
            TexTransCoreTextureFormat::UShort => 2,
            TexTransCoreTextureFormat::Half => 2,
            TexTransCoreTextureFormat::Float => 4,
        }
    }
}

/// Which GPU adapter the host should pick when it creates the device.
#[derive(Clone, Copy, PartialEq, Eq, Structural, Debug)]
pub enum RequestDevicePreference {
    Auto,
    DiscreteGPU,
    IntegratedGPUOrCPU,
}

/// Outcome of a shader registration as handed across the host boundary: a
/// success flag and the identifier (meaningful only on success).
#[derive(Clone, Copy, PartialEq, Eq, Structural, Debug)]
pub struct RegisterCSResult {
    pub result: bool,
    pub compute_shader_id: u32,
}

/// Outcome of a binding-index lookup as handed across the host boundary: a
/// success flag and the slot (meaningful only on success).
#[derive(Clone, Copy, PartialEq, Eq, Structural, Debug)]
pub struct GetBindIndexResult {
    pub result: bool,
    pub bind_index: u32,
}

/// Work-group size as handed across the host boundary.
#[derive(Clone, Copy, PartialEq, Eq, Structural, Debug)]
pub struct WorkGroupSize {
    pub x: u32,
    pub y: u32,
    pub z: u32,
}

impl WorkGroupSize {
    pub fn from(wgs: compute_shader::WorkGroupSize) -> (r: Self)
        ensures
            r.x == wgs.x,
            r.y == wgs.y,
            r.z == wgs.z,
    {
        WorkGroupSize { x: wgs.x, y: wgs.y, z: wgs.z }
    }
}

} // verus!
