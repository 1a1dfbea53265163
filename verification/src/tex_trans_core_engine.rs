//! The engine device, the per-batch execution context, and the command
//! model.
//!
//! The device owns the shader catalog and the format-converter table. A
//! context owns at most one open command encoder, modeled as the list of
//! commands recorded into it, plus a pending-command counter. GPU work is
//! expressed as [`TTCommand`] values (recorded into the encoder) and
//! [`GpuAction`] values (steps the host must perform in order); submitting
//! hands the encoder's commands back to the host.

use vstd::prelude::*;

use crate::compute_shader::{TTComputeShader, TTComputeShaderID};
use crate::render_texture::{ConvertTextureFormat, GpuTextureFormat, TTRenderTexture};
use crate::{TexTransCoreTextureChannel, TexTransCoreTextureFormat};

verus! {

/// Errors the engine reports to its caller.
#[derive(Clone, Copy, PartialEq, Eq, Structural, Debug)]
pub enum TTCEWgpuError {
    BindingNotFound,
    BindingIsNotConstantsBuffer,
    BindingIsNotStorageBuffer,
    BindingIsNotRWTexture,
    BufferNotDownloadable,
    MappingFailed,
}

/// A resource bound into one slot of a dispatch's bind group.
#[derive(Clone, PartialEq, Debug)]
pub enum BoundResource {
    TextureView { texture: u64 },
    ConstantsBuffer { data: Vec<u8> },
    StorageBuffer { buffer: u64 },
}

/// Mathematical value of a [`BoundResource`].
pub enum ResourceView {
    TextureView { texture: u64 },
    ConstantsBuffer { data: Seq<u8> },
    StorageBuffer { buffer: u64 },
}

impl View for BoundResource {
    type V = ResourceView;

    open spec fn view(&self) -> ResourceView {
        match self {
            BoundResource::TextureView { texture } => ResourceView::TextureView {
                texture: *texture,
            },
            BoundResource::ConstantsBuffer { data } => ResourceView::ConstantsBuffer {
                data: data@,
            },
            BoundResource::StorageBuffer { buffer } => ResourceView::StorageBuffer {
                buffer: *buffer,
            },
        }
    }
}

/// One entry of a dispatch's bind group: a slot and the resource bound to it.
#[derive(Clone, PartialEq, Debug)]
pub struct BindGroupEntry {
    pub binding: u32,
    pub resource: BoundResource,
}

/// Mathematical value of a [`BindGroupEntry`].
pub struct BindGroupEntryView {
    pub binding: u32,
    pub resource: ResourceView,
}

impl View for BindGroupEntry {
    type V = BindGroupEntryView;

    open spec fn view(&self) -> BindGroupEntryView {
        BindGroupEntryView { binding: self.binding, resource: self.resource@ }
    }
}

/// A command recorded into the context's encoder. Textures and buffers are
/// named by the handles of their engine-side descriptions.
#[derive(Clone, PartialEq, Debug)]
pub enum TTCommand {
    CopyTextureToTexture { src: u64, dst: u64, width: u32, height: u32 },
    ComputeDispatch { pipeline: TTComputeShaderID, entries: Vec<BindGroupEntry>, x: u32, y: u32, z: u32 },
    CopyTextureToBuffer { texture: u64, buffer: u64, bytes_per_row: u32, width: u32, height: u32 },
}

/// Mathematical value of a [`TTCommand`].
pub enum CommandView {
    CopyTextureToTexture { src: u64, dst: u64, width: u32, height: u32 },
    ComputeDispatch { pipeline: TTComputeShaderID, entries: Seq<BindGroupEntryView>, x: u32, y: u32, z: u32 },
    CopyTextureToBuffer { texture: u64, buffer: u64, bytes_per_row: u32, width: u32, height: u32 },
}

impl View for TTCommand {
    type V = CommandView;

    open spec fn view(&self) -> CommandView {
        match self {
            TTCommand::CopyTextureToTexture { src, dst, width, height } => {
                CommandView::CopyTextureToTexture {
                    src: *src,
                    dst: *dst,
                    width: *width,
                    height: *height,
                }
            },
            TTCommand::ComputeDispatch { pipeline, entries, x, y, z } => {
                CommandView::ComputeDispatch {
                    pipeline: *pipeline,
                    entries: entries@.map_values(|e: BindGroupEntry| e@),
                    x: *x,
                    y: *y,
                    z: *z,
                }
            },
            TTCommand::CopyTextureToBuffer { texture, buffer, bytes_per_row, width, height } => {
                CommandView::CopyTextureToBuffer {
                    texture: *texture,
                    buffer: *buffer,
                    bytes_per_row: *bytes_per_row,
                    width: *width,
                    height: *height,
                }
            },
        }
    }
}

/// A host-visible buffer the engine reads GPU data back into.
#[derive(Clone, Copy, PartialEq, Eq, Structural, Debug)]
pub struct TTReadbackBuffer {
    pub handle: u64,
    pub size: u64,
}

/// One step the host must perform against the GPU API, in order.
#[derive(Clone, PartialEq, Debug)]
pub enum GpuAction {
    /// Create the GPU texture described by this engine-side value.
    CreateTexture { texture: TTRenderTexture },
    /// Create a host-mappable readback buffer of the given size.
    CreateReadbackBuffer { buffer: TTReadbackBuffer },
    /// Create the GPU storage buffer described by this engine-side value:
    /// zero-filled when `contents` is `None`, else initialized with
    /// exactly these bytes; read-mappable if and only if the description
    /// says so.
    CreateStorageBuffer { buffer: crate::storage_buffer::TTStorageBuffer, contents: Option<Vec<u8>> },
    /// Write raw texel data through the queue into a texture.
    WriteTexture { texture: u64, data: Vec<u8>, bytes_per_row: u32, width: u32, height: u32 },
    /// Mirror this command into the open command encoder.
    RecordCommand { command: TTCommand },
    /// Finish the open encoder and submit; `commands` is what it held.
    Submit { commands: Vec<TTCommand> },
    /// Request read-mapping of a readback buffer, then poll and await it.
    MapRead { buffer: u64 },
}

/// Mathematical value of a [`GpuAction`].
pub enum ActionView {
    CreateTexture { texture: TTRenderTexture },
    CreateReadbackBuffer { buffer: TTReadbackBuffer },
    CreateStorageBuffer { buffer: crate::storage_buffer::TTStorageBuffer, contents: Option<Seq<u8>> },
    WriteTexture { texture: u64, data: Seq<u8>, bytes_per_row: u32, width: u32, height: u32 },
    RecordCommand { command: CommandView },
    Submit { commands: Seq<CommandView> },
    MapRead { buffer: u64 },
}

impl View for GpuAction {
    type V = ActionView;

    open spec fn view(&self) -> ActionView {
        match self {
            GpuAction::CreateTexture { texture } => ActionView::CreateTexture {
                texture: *texture,
            },
            GpuAction::CreateReadbackBuffer { buffer } => ActionView::CreateReadbackBuffer {
                buffer: *buffer,
            },
            GpuAction::CreateStorageBuffer { buffer, contents } => ActionView::CreateStorageBuffer {
                buffer: *buffer,
                contents: match contents {
                    Some(v) => Some(v@),
                    None => None,
                },
            },
            GpuAction::WriteTexture { texture, data, bytes_per_row, width, height } => {
                ActionView::WriteTexture {
                    texture: *texture,
                    data: data@,
                    bytes_per_row: *bytes_per_row,
                    width: *width,
                    height: *height,
                }
            },
            GpuAction::RecordCommand { command } => ActionView::RecordCommand {
                command: command@,
            },
            GpuAction::Submit { commands } => ActionView::Submit {
                commands: commands@.map_values(|c: TTCommand| c@),
            },
            GpuAction::MapRead { buffer } => ActionView::MapRead { buffer: *buffer },
        }
    }
}

/// How a texture allocation chooses its format: the device default for the
/// requested channel layout, or an explicit (format, channel) pair.
#[derive(Clone, Copy, PartialEq, Eq, Structural, Debug)]
pub enum RequestFormat {
    AutoWithChannel(TexTransCoreTextureChannel),
    Manual(TexTransCoreTextureFormat, TexTransCoreTextureChannel),
}

/// A texture allocation request.
#[derive(Clone, Copy, PartialEq, Eq, Structural, Debug)]
pub struct TTRtRequestDescriptor {
    pub width: u32,
    pub height: u32,
    pub format: RequestFormat,
}

/// Root owner of the engine: the shader catalog, the converter table, and
/// the configured defaults. The GPU connection itself is held by the host.
pub struct TexTransCoreEngineDevice {
    pub compute_shader: Vec<TTComputeShader>,
    pub converter_id: Vec<(ConvertTextureFormat, TTComputeShaderID)>,
    pub default_render_texture_format: TexTransCoreTextureFormat,
    pub max_command_stack_count: u32,
}

impl TexTransCoreEngineDevice {
    /// A fresh device: empty catalog, empty converter table, float default
    /// format, and a backlog threshold of 16 pending commands.
    pub fn new() -> (r: Self)
        ensures
            r.compute_shader@.len() == 0,
            r.converter_id@.len() == 0,
            r.default_render_texture_format == TexTransCoreTextureFormat::Float,
            r.max_command_stack_count == 16,
    {
        TexTransCoreEngineDevice {
            compute_shader: Vec::new(),
            converter_id: Vec::new(),
            default_render_texture_format: TexTransCoreTextureFormat::Float,
            max_command_stack_count: 16,
        }
    }

    pub fn default_texture_format(&self) -> (r: TexTransCoreTextureFormat)
        ensures
            r == self.default_render_texture_format,
    {
        self.default_render_texture_format
    }

    pub fn set_default_texture_format(&mut self, format: TexTransCoreTextureFormat)
        ensures
            final(self).default_render_texture_format == format,
            final(self).compute_shader == old(self).compute_shader,
            final(self).converter_id == old(self).converter_id,
            final(self).max_command_stack_count == old(self).max_command_stack_count,
    {
        self.default_render_texture_format = format;
    }

    /// A fresh context against this device: no open encoder, a zero
    /// pending-command counter, and a fresh resource-handle sequence.
    pub fn create_ctx(&self) -> (r: TexTransCoreEngineContext)
        ensures
            r.command_encoder is None,
            r.command_stack_count == 0,
            r.next_resource_handle == 0,
    {
        TexTransCoreEngineContext {
            command_encoder: None,
            command_stack_count: 0,
            next_resource_handle: 0,
        }
    }

    /// The native format a request resolves to: `Manual` is taken as given;
    /// `Auto` uses the device default for RGBA and the float format for the
    /// one- and two-channel layouts.
    pub open spec fn spec_request_format(&self, rf: RequestFormat) -> GpuTextureFormat {
        match rf {
            RequestFormat::AutoWithChannel(channel) => TTRenderTexture::spec_to_wgpu_texture_format(
                if channel == TexTransCoreTextureChannel::RGBA {
                    self.default_render_texture_format
                } else {
                    TexTransCoreTextureFormat::Float
                },
                channel,
            ),
            RequestFormat::Manual(format, channel) => TTRenderTexture::spec_to_wgpu_texture_format(
                format,
                channel,
            ),
        }
    }

    /// Resolves an allocation request to a texture description under the
    /// given handle. The host creates the actual GPU texture from it, with
    /// sampled/storage/copy-source/copy-destination/render-attachment usage.
    pub fn create_render_texture(&self, desc: &TTRtRequestDescriptor, handle: u64) -> (r:
        TTRenderTexture)
        requires
            desc.width >= 1,
            desc.height >= 1,
        ensures
            r.handle == handle,
            r.width == desc.width,
            r.height == desc.height,
            r.format == self.spec_request_format(desc.format),
    {
        let tex_format = match desc.format {
            RequestFormat::AutoWithChannel(channel) => TTRenderTexture::to_wgpu_texture_format(
                if channel == TexTransCoreTextureChannel::RGBA {
                    self.default_render_texture_format
                } else {
                    TexTransCoreTextureFormat::Float
                },
                channel,
            ),
            RequestFormat::Manual(format, channel) => TTRenderTexture::to_wgpu_texture_format(
                format,
                channel,
            ),
        };
        TTRenderTexture { handle, width: desc.width, height: desc.height, format: tex_format }
    }
}

/// A per-batch execution context: the open command encoder (if any) modeled
/// as the commands recorded into it, the pending-command counter, and the
/// next fresh resource handle.
pub struct TexTransCoreEngineContext {
    pub command_encoder: Option<Vec<TTCommand>>,
    pub command_stack_count: u32,
    pub next_resource_handle: u64,
}

impl TexTransCoreEngineContext {
    /// The commands currently recorded into the open encoder; empty when no
    /// encoder is open.
    pub open spec fn pending(&self) -> Seq<CommandView> {
        match self.command_encoder {
            Some(v) => v@.map_values(|c: TTCommand| c@),
            None => Seq::empty(),
        }
    }

    /// Opens the encoder if none is open, counts the access against the
    /// backlog threshold, and hands the encoder out for recording.
    pub fn get_command_encoder_as_mut(&mut self) -> (r: &mut Vec<TTCommand>)
        requires
            old(self).command_stack_count < u32::MAX,
        ensures
            r@.map_values(|c: TTCommand| c@) == old(self).pending(),
            final(self).command_encoder == Some(*final(r)),
            final(self).command_stack_count == old(self).command_stack_count + 1,
            final(self).next_resource_handle == old(self).next_resource_handle,
    {
        if self.command_encoder.is_none() {
            self.command_encoder = Some(Vec::new());
        }
        self.command_stack_count = self.command_stack_count + 1;
        match self.command_encoder.as_mut() {
            Some(v) => v,
            None => unreached(),
        }
    }

    /// Flushes when the pending-command counter exceeds the device's
    /// threshold, and not otherwise; a flush returns the submitted batch.
    pub fn check_command_stack(&mut self, engine: &TexTransCoreEngineDevice) -> (r: Option<
        Vec<TTCommand>,
    >)
        ensures
            old(self).command_stack_count > engine.max_command_stack_count ==> {
                &&& r is Some
                &&& r.unwrap()@.map_values(|c: TTCommand| c@) == old(self).pending()
                &&& final(self).command_encoder is None
                &&& final(self).command_stack_count == 0
            },
            old(self).command_stack_count <= engine.max_command_stack_count ==> {
                &&& r is None
                &&& final(self).command_encoder == old(self).command_encoder
                &&& final(self).command_stack_count == old(self).command_stack_count
            },
            final(self).next_resource_handle == old(self).next_resource_handle,
    {
        if self.command_stack_count > engine.max_command_stack_count {
            Some(self.send_command())
        } else {
            None
        }
    }

    /// One backlog step, as an encoder access followed by
    /// [`Self::check_command_stack`] decides it: the counter advances by
    /// one, and the step flushes — resetting the counter — exactly when
    /// the advanced counter exceeds the threshold.
    pub open spec fn spec_backlog_step(count: int, threshold: int) -> (int, bool) {
        if count + 1 > threshold {
            (0int, true)
        } else {
            (count + 1, false)
        }
    }

    /// Counter value and number of flushes after `n` backlog steps from a
    /// fresh context.
    pub open spec fn spec_backlog_run(n: nat, threshold: int) -> (int, nat)
        decreases n,
    {
        if n == 0 {
            (0int, 0nat)
        } else {
            let prev = Self::spec_backlog_run((n - 1) as nat, threshold);
            let step = Self::spec_backlog_step(prev.0, threshold);
            (step.0, prev.1 + if step.1 {
                1nat
            } else {
                0nat
            })
        }
    }

    /// Closes and submits the encoder: the returned batch is what it held
    /// (empty when no encoder was open — an empty submission), and the
    /// counter restarts from zero.
    pub fn send_command(&mut self) -> (batch: Vec<TTCommand>)
        ensures
            batch@.map_values(|c: TTCommand| c@) == old(self).pending(),
            final(self).command_encoder is None,
            final(self).command_stack_count == 0,
            final(self).next_resource_handle == old(self).next_resource_handle,
    {
        self.command_stack_count = 0;
        match self.command_encoder.take() {
            Some(v) => v,
            None => Vec::new(),
        }
    }
}

/// A dispatch sequence no longer than the backlog threshold produces zero
/// flushes: from a fresh context, `n` dispatches leave the counter at `n`
/// and flush nothing while `n` stays within the threshold. The first flush
/// can only come from the step that takes the counter past the threshold,
/// from an explicit submit, or from a readback (which always submits).
pub proof fn lemma_short_dispatch_runs_never_flush(n: nat, threshold: int)
    requires
        n <= threshold,
    ensures
        TexTransCoreEngineContext::spec_backlog_run(n, threshold) == (n as int, 0nat),
    decreases n,
{
    if n > 0 {
        lemma_short_dispatch_runs_never_flush((n - 1) as nat, threshold);
    }
}

/// The dispatch after a threshold-filling run is the one that flushes.
pub proof fn lemma_flush_exactly_past_threshold(threshold: nat)
    ensures
        TexTransCoreEngineContext::spec_backlog_run(threshold + 1, threshold as int) == (
            0int,
            1nat,
        ),
{
    lemma_short_dispatch_runs_never_flush(threshold, threshold as int);
}

} // verus!